//! The engine handle: the locked slot hands values through intact, and
//! wholesale replacement is one slot write.

use audio_bridge::engine::{EngineHandle, EngineSlot};

#[test]
fn slot_travels_through_the_lock() {
    let handle: EngineHandle<u64> = EngineHandle::new(42, 0);
    let (slot, guard) = handle.acquire();
    assert_eq!(slot.engine, 42);
    assert_eq!(slot.sample_rate, 0);
    handle.release(guard, slot);

    let (mut slot, guard) = handle.acquire();
    slot.engine = 43;
    slot.sample_rate = 48000;
    handle.release(guard, slot);

    let (slot, guard) = handle.acquire();
    assert_eq!(slot.engine, 43);
    assert_eq!(slot.sample_rate, 48000);
    handle.release(guard, slot);
}

#[test]
fn wholesale_replacement_keeps_last_known_rate() {
    let handle: EngineHandle<String> = EngineHandle::new(String::from("first project"), 44100);

    // Project reload: the engine instance is replaced in one slot
    // write; the slot's rate tells the caller what to reconfigure the
    // fresh engine to inside the same critical section.
    let (slot, guard) = handle.acquire();
    let last_known_rate = slot.sample_rate;
    let replacement = EngineSlot {
        engine: String::from("second project"),
        sample_rate: last_known_rate,
    };
    handle.release(guard, replacement);

    let (slot, guard) = handle.acquire();
    assert_eq!(slot.engine, "second project");
    assert_eq!(slot.sample_rate, 44100);
    handle.release(guard, slot);
}
