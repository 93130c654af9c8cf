use anilist::interpret_line;
use anilist::make_cover;
use anilist::report;
use anilist::step;
use anilist::AnilistEntry;
use anilist::AnilistImage;
use anilist::Command;
use anilist::Data;
use anilist::FetchError;
use anilist::LoopState;

#[test]
fn exit_in_any_casing_terminates() {
    assert_eq!(interpret_line("exit"), Command::Exit);
    assert_eq!(interpret_line("EXIT"), Command::Exit);
    assert_eq!(interpret_line("ExIt"), Command::Exit);
    assert_eq!(interpret_line("  exit \n"), Command::Exit);
    assert_eq!(interpret_line("\tEXIT\r\n"), Command::Exit);
    let c = interpret_line(" Exit ");
    assert_eq!(step(LoopState::AwaitingInput, &c), LoopState::Terminated);
}

#[test]
fn non_numeric_input_is_invalid() {
    assert_eq!(interpret_line("abc"), Command::Invalid);
    assert_eq!(interpret_line(""), Command::Invalid);
    assert_eq!(interpret_line("   "), Command::Invalid);
    assert_eq!(interpret_line("exit now"), Command::Invalid);
    assert_eq!(interpret_line("12a"), Command::Invalid);
    assert_eq!(interpret_line("-5"), Command::Invalid);
    let c = interpret_line("abc");
    assert_eq!(step(LoopState::AwaitingInput, &c), LoopState::AwaitingInput);
}

#[test]
fn numeric_input_asks_for_a_fetch() {
    assert_eq!(interpret_line("42"), Command::Fetch(42));
    assert_eq!(interpret_line(" 15125 \n"), Command::Fetch(15125));
    assert_eq!(interpret_line("0"), Command::Fetch(0));
    assert_eq!(interpret_line("4294967296"), Command::Invalid);
}

#[test]
fn terminated_state_is_absorbing() {
    assert_eq!(step(LoopState::Terminated, &Command::Invalid), LoopState::Terminated);
    assert_eq!(step(LoopState::Terminated, &Command::Fetch(1)), LoopState::Terminated);
    assert_eq!(step(LoopState::AwaitingInput, &Command::Fetch(1)), LoopState::AwaitingInput);
}

#[test]
fn transport_failure_keeps_the_loop_running() {
    let (text, state) = report(&Err(FetchError::Transport));
    assert_eq!(text, "Can't connect to the service");
    assert_eq!(state, LoopState::AwaitingInput);
}

#[test]
fn decode_failure_keeps_the_loop_running() {
    let (text, state) = report(&Err(FetchError::Decode));
    assert_eq!(text, "Malformed response from the service");
    assert_eq!(state, LoopState::AwaitingInput);
}

#[test]
fn not_found_outcome_reports_the_notice() {
    let entry = AnilistEntry { data: Data { media: None }, image: make_cover(None) };
    let (text, state) = report(&Ok(entry));
    assert_eq!(text, "Entry not found");
    assert_eq!(state, LoopState::AwaitingInput);
}

#[test]
fn absent_bytes_yield_the_placeholder() {
    let cover = make_cover(None);
    assert!(!cover.decoded);
}

#[test]
fn undecodable_bytes_yield_the_placeholder() {
    let bytes = b"this is well-formed text, but it is no image at all";
    let cover = make_cover(Some(bytes));
    assert!(!cover.decoded);
}

#[test]
fn decodable_bytes_yield_real_cover_art() {
    let bitmap = image::DynamicImage::new_rgba8(2, 2);
    let mut bytes: Vec<u8> = Vec::new();
    bitmap
        .write_to(&mut std::io::Cursor::new(&mut bytes), image::ImageFormat::Png)
        .unwrap();
    let cover = make_cover(Some(&bytes));
    assert!(cover.decoded);
}

#[test]
fn placeholder_constructor_is_not_decoded() {
    let placeholder = AnilistImage::default();
    assert!(!placeholder.decoded);
    let real = AnilistImage::new(image::DynamicImage::new_rgba8(1, 1));
    assert!(real.decoded);
}
