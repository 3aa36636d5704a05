use tactics_core::animation::AnimationLibrary;

fn guinevere_library() -> AnimationLibrary {
    let mut lib = AnimationLibrary::new();
    lib.insert_animation("idle".to_string(), vec![0, 0, 0, 0, 0, 1, 2, 2, 2, 2, 2, 1]);
    lib.insert_animation("running_lr".to_string(), (4..8).collect());
    lib.insert_animation("running_down".to_string(), (8..12).collect());
    lib.insert_animation("running_up".to_string(), (12..16).collect());
    lib.insert_animation("selected".to_string(), vec![16, 16, 16, 16, 16, 17, 18, 18, 18, 18, 18, 17]);
    lib.set_frames_per(12);
    lib.set_animation("running_lr".to_string());
    lib
}

#[test]
fn new_library_plays_a_one_frame_idle() {
    let mut lib = AnimationLibrary::new();
    assert_eq!(lib.lookup(&"idle".to_string()), Some(&vec![0]));
    assert_eq!(lib.lookup(&"selected".to_string()), None);
    assert_eq!(lib.advance_frame(), Some(0));
    assert_eq!(lib.advance_frame(), Some(0));
}

#[test]
fn insert_replaces_frames_under_the_same_name() {
    let mut lib = AnimationLibrary::new();
    lib.insert_animation("idle".to_string(), vec![3, 4]);
    assert_eq!(lib.lookup(&"idle".to_string()), Some(&vec![3, 4]));
    lib.insert_animation("walk".to_string(), vec![5, 6, 7]);
    assert_eq!(lib.lookup(&"idle".to_string()), Some(&vec![3, 4]));
    assert_eq!(lib.lookup(&"walk".to_string()), Some(&vec![5, 6, 7]));
}

#[test]
fn frames_per_second_converts_to_milliseconds() {
    let mut lib = AnimationLibrary::new();
    assert_eq!(lib.frame_millis(), 200);
    lib.set_frames_per(12);
    assert_eq!(lib.frame_millis(), 83);
    lib.set_frames_per(5);
    assert_eq!(lib.frame_millis(), 200);
    lib.set_timer(125);
    assert_eq!(lib.frame_millis(), 125);
}

#[test]
fn advance_wraps_at_the_end_of_the_sequence() {
    let mut lib = guinevere_library();
    let run: Vec<usize> = (0..9).map(|_| lib.advance_frame().unwrap()).collect();
    assert_eq!(run, vec![4, 5, 6, 7, 4, 5, 6, 7, 4]);
}

#[test]
fn advance_on_missing_animation_reports_nothing() {
    let mut lib = guinevere_library();
    lib.set_animation("casting".to_string());
    assert_eq!(lib.advance_frame(), None);
}

#[test]
fn selected_animation_walks_its_sheet_indices() {
    let mut lib = guinevere_library();
    lib.set_animation("selected".to_string());
    lib.set_frame(0);
    let seen: Vec<usize> = (0..12).map(|_| lib.advance_frame().unwrap()).collect();
    assert_eq!(seen, vec![16, 16, 16, 16, 16, 17, 18, 18, 18, 18, 18, 17]);
}
