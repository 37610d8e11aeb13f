use termixer::voices::{free_voice_slot, note_step};

#[test]
fn trigger_takes_the_first_free_voice() {
    assert_eq!(free_voice_slot(&[true, true, false, false]), Some(2));
    assert_eq!(free_voice_slot(&[false, true]), Some(0));
    assert_eq!(free_voice_slot(&[true, true, true]), None);
    assert_eq!(free_voice_slot(&[]), None);
}

#[test]
fn step_boundary_is_noticed_once() {
    let mut last = 0usize;
    assert!(!note_step(&mut last, 0));
    assert!(note_step(&mut last, 1));
    assert_eq!(last, 1);
    assert!(!note_step(&mut last, 1));
    assert!(note_step(&mut last, 0));
    assert_eq!(last, 0);
}
