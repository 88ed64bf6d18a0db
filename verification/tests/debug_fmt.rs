use bitwarden_desktop_next::debug_fmt::{decimal_string, NoDebug, Summary};
use bitwarden_desktop_next::drop_down::{Alignment, HeightRoom, Slide};

#[test]
fn secrets_print_hidden() {
    let s = NoDebug("hunter2".to_string());
    assert_eq!(s.debug_text(), "<hidden>");
    assert_eq!(s.len(), 7);
    assert_eq!(*s, "hunter2");
}

#[test]
fn bulk_loads_print_their_count() {
    assert_eq!(Summary(vec![1u8; 20_000]).debug_text(), "<20000 items>");
    assert_eq!(Summary(Vec::<u8>::new()).debug_text(), "<0 items>");
    let one = Summary(vec!["a"]);
    assert_eq!(one.debug_text(), "<1 items>");
    assert_eq!(one[0], "a");
}

#[test]
fn decimal_digits() {
    assert_eq!(decimal_string(0), "0");
    assert_eq!(decimal_string(9), "9");
    assert_eq!(decimal_string(10), "10");
    assert_eq!(decimal_string(1_234_567_890), "1234567890");
    assert_eq!(decimal_string(usize::MAX), usize::MAX.to_string());
}

#[test]
fn drop_down_room_and_slide() {
    assert_eq!(Alignment::Top.height_room(), HeightRoom::Above);
    assert_eq!(Alignment::TopEnd.height_room(), HeightRoom::AboveAndTrigger);
    assert_eq!(Alignment::BelowLeft.height_room(), HeightRoom::Below);
    assert_eq!(Alignment::BottomStart.height_room(), HeightRoom::BelowAndTrigger);
    assert_eq!(Alignment::Start.height_room(), HeightRoom::Centred);
    assert_eq!(Alignment::AboveRight.slide(), Slide::Up);
    assert_eq!(Alignment::BelowRight.slide(), Slide::Down);
    assert_eq!(Alignment::End.slide(), Slide::Still);
}
