use cmdrun::color::{
    append_bytes, color_choice, color_enabled, render_with_color, stderr_with_color,
    stdout_with_color, stream_with_color, stream_with_color_on, with_color, write_colored, Color,
    ColorChoice, ColorSpec, Stream,
};

const RESET: &[u8] = b"\x1b[0m";

#[test]
fn write_colored_frames_the_text() {
    let spec = ColorSpec { fg: Some(Color::Black), bg: Some(Color::Cyan) };
    let mut out = Vec::new();
    write_colored(&mut out, true, &spec, b"/work");
    assert_eq!(out, b"\x1b[0m\x1b[30m\x1b[46m/work\x1b[0m".to_vec());
}

#[test]
fn write_colored_appends_to_what_is_there() {
    let spec = ColorSpec { fg: Some(Color::Red), bg: None };
    let mut out = b"before ".to_vec();
    write_colored(&mut out, true, &spec, b"x");
    assert_eq!(out, b"before \x1b[0m\x1b[31mx\x1b[0m".to_vec());
}

#[test]
fn write_colored_without_colours_still_resets() {
    let spec = ColorSpec { fg: None, bg: None };
    let mut out = Vec::new();
    write_colored(&mut out, true, &spec, b"x");
    assert_eq!(out, b"\x1b[0mx\x1b[0m".to_vec());
}

#[test]
fn write_colored_disabled_is_plain_text() {
    let spec = ColorSpec { fg: Some(Color::Black), bg: Some(Color::Green) };
    let mut out = Vec::new();
    write_colored(&mut out, false, &spec, b"plain");
    assert_eq!(out, b"plain".to_vec());
    assert!(!out.contains(&0x1b));
}

#[test]
fn write_colored_ends_with_reset_for_every_colour() {
    let all = [
        (Color::Black, b'0'),
        (Color::Red, b'1'),
        (Color::Green, b'2'),
        (Color::Yellow, b'3'),
        (Color::Blue, b'4'),
        (Color::Magenta, b'5'),
        (Color::Cyan, b'6'),
        (Color::White, b'7'),
    ];
    for (color, digit) in all {
        let mut fg = Vec::new();
        write_colored(&mut fg, true, &ColorSpec { fg: Some(color), bg: None }, b"t");
        assert_eq!(fg, [RESET, &[0x1b, b'[', b'3', digit, b'm'], b"t", RESET].concat());
        assert!(fg.ends_with(RESET));
        let mut bg = Vec::new();
        write_colored(&mut bg, true, &ColorSpec { fg: None, bg: Some(color) }, b"t");
        assert_eq!(bg, [RESET, &[0x1b, b'[', b'4', digit, b'm'], b"t", RESET].concat());
        assert!(bg.ends_with(RESET));
    }
}

#[test]
fn write_colored_of_empty_text() {
    let spec = ColorSpec { fg: Some(Color::White), bg: None };
    let mut on = Vec::new();
    write_colored(&mut on, true, &spec, b"");
    assert_eq!(on, b"\x1b[0m\x1b[37m\x1b[0m".to_vec());
    let mut off = Vec::new();
    write_colored(&mut off, false, &spec, b"");
    assert!(off.is_empty());
}

#[test]
fn append_bytes_keeps_what_is_there() {
    let mut out = vec![1u8, 2];
    append_bytes(&mut out, &[3, 4, 5]);
    assert_eq!(out, vec![1u8, 2, 3, 4, 5]);
    append_bytes(&mut out, &[]);
    assert_eq!(out, vec![1u8, 2, 3, 4, 5]);
}

#[test]
fn color_choice_follows_the_terminal() {
    assert!(matches!(color_choice(true), ColorChoice::Auto));
    assert!(matches!(color_choice(false), ColorChoice::Never));
}

#[test]
fn no_colour_off_a_terminal() {
    assert!(!color_enabled(Stream::Stdout, false));
    assert!(!color_enabled(Stream::Stderr, false));
}

#[test]
fn stream_helpers_give_plain_or_framed_text() {
    let spec = ColorSpec { fg: Some(Color::Black), bg: Some(Color::Red) };
    let plain = b"text".to_vec();
    let framed = b"\x1b[0m\x1b[30m\x1b[41mtext\x1b[0m".to_vec();
    let (out, n) = stdout_with_color(&spec, |w: &mut Vec<u8>| {
        w.extend_from_slice(b"text");
        4
    });
    assert_eq!(n, 4);
    assert!(out == plain || out == framed);
    let (err, ()) = stderr_with_color(&spec, |w: &mut Vec<u8>| w.extend_from_slice(b"text"));
    assert!(err == plain || err == framed);
    let (other, ()) = stream_with_color(Stream::Stderr, &spec, |w: &mut Vec<u8>| {
        w.extend_from_slice(b"text")
    });
    assert!(other == plain || other == framed);
}

#[test]
fn with_color_runs_the_body_between_colour_and_reset() {
    let spec = ColorSpec { fg: Some(Color::Green), bg: None };
    let mut out = b"> ".to_vec();
    let seen = with_color(&mut out, true, &spec, |w: &mut Vec<u8>| {
        let seen = w.clone();
        w.extend_from_slice(b"ok");
        seen
    });
    assert_eq!(seen, b"> \x1b[0m\x1b[32m".to_vec());
    assert_eq!(out, b"> \x1b[0m\x1b[32mok\x1b[0m".to_vec());
}

#[test]
fn with_color_resets_after_a_body_that_fails() {
    let spec = ColorSpec { fg: None, bg: Some(Color::Red) };
    let mut out = Vec::new();
    let r: Result<(), String> = with_color(&mut out, true, &spec, |w: &mut Vec<u8>| {
        w.extend_from_slice(b"half");
        Err("broken".to_string())
    });
    assert_eq!(r, Err("broken".to_string()));
    assert_eq!(out, b"\x1b[0m\x1b[41mhalf\x1b[0m".to_vec());
    assert!(out.ends_with(RESET));
}

#[test]
fn with_color_disabled_runs_the_body_alone() {
    let spec = ColorSpec { fg: Some(Color::Blue), bg: Some(Color::Yellow) };
    let mut out = b"a".to_vec();
    let n = with_color(&mut out, false, &spec, |w: &mut Vec<u8>| {
        w.push(b'b');
        w.len()
    });
    assert_eq!(n, 2);
    assert_eq!(out, b"ab".to_vec());
}

#[test]
fn render_with_color_frames_what_the_body_wrote() {
    let spec = ColorSpec { fg: Some(Color::Black), bg: Some(Color::Red) };
    let (bytes, seen) = render_with_color(true, &spec, |w: &mut Vec<u8>| {
        let seen = w.clone();
        w.extend_from_slice(b"text");
        seen
    });
    assert_eq!(seen, b"\x1b[0m\x1b[30m\x1b[41m".to_vec());
    assert_eq!(bytes, b"\x1b[0m\x1b[30m\x1b[41mtext\x1b[0m".to_vec());
    assert!(bytes.ends_with(RESET));
}

#[test]
fn render_without_color_is_what_the_body_wrote() {
    let spec = ColorSpec { fg: Some(Color::Black), bg: Some(Color::Red) };
    let (bytes, seen) = render_with_color(false, &spec, |w: &mut Vec<u8>| {
        let seen = w.len();
        w.extend_from_slice(b"text");
        seen
    });
    assert_eq!(seen, 0);
    assert_eq!(bytes, b"text".to_vec());
}

#[test]
fn stream_off_a_terminal_gets_the_bare_text() {
    let spec = ColorSpec { fg: Some(Color::Black), bg: Some(Color::Red) };
    let (out, v) = stream_with_color_on(false, Stream::Stdout, &spec, |w: &mut Vec<u8>| {
        w.extend_from_slice(b"text");
        7
    });
    assert_eq!(v, 7);
    assert_eq!(out, b"text".to_vec());
    assert!(!out.contains(&0x1b));
    let (err, ()) = stream_with_color_on(false, Stream::Stderr, &spec, |w: &mut Vec<u8>| {
        w.extend_from_slice(b"text")
    });
    assert_eq!(err, b"text".to_vec());
    assert!(!err.contains(&0x1b));
}

#[test]
fn stream_on_a_terminal_gets_bare_or_framed_text() {
    let spec = ColorSpec { fg: None, bg: Some(Color::Green) };
    let (err, ()) = stream_with_color_on(true, Stream::Stderr, &spec, |w: &mut Vec<u8>| {
        w.extend_from_slice(b"text")
    });
    assert!(err == b"text".to_vec() || err == b"\x1b[0m\x1b[42mtext\x1b[0m".to_vec());
}
