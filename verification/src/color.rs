//! Scoped colouring of terminal output, rendered as bytes.
//!
//! Colour is used only where the destination is an interactive terminal; the
//! attributes are always back to the default once a coloured span has ended.

use vstd::prelude::*;

verus! {

/// The eight basic terminal colours.
#[derive(Clone, Copy, Debug)]
pub enum Color {
    Black,
    Blue,
    Green,
    Red,
    Cyan,
    Magenta,
    Yellow,
    White,
}

/// The colours of a span of text: foreground and background, each optional.
#[derive(Clone, Copy, Debug)]
pub struct ColorSpec {
    pub fg: Option<Color>,
    pub bg: Option<Color>,
}

/// One of the two standard output streams of the process.
#[derive(Clone, Copy, Debug)]
pub enum Stream {
    Stdout,
    Stderr,
}

/// Whether colour may be used at all: decided by the environment, or never.
#[derive(Clone, Copy, Debug)]
pub enum ColorChoice {
    Auto,
    Never,
}

/// The ASCII digit that selects a colour in an escape sequence.
pub open spec fn color_digit(c: Color) -> u8 {
    match c {
        Color::Black => 0x30,
        Color::Red => 0x31,
        Color::Green => 0x32,
        Color::Yellow => 0x33,
        Color::Blue => 0x34,
        Color::Magenta => 0x35,
        Color::Cyan => 0x36,
        Color::White => 0x37,
    }
}

/// The escape sequence that restores the default attributes: `ESC [ 0 m`.
pub open spec fn reset_code() -> Seq<u8> {
    seq![0x1bu8, 0x5bu8, 0x30u8, 0x6du8]
}

/// The escape sequence that sets one layer to a colour: `ESC [ <layer>
/// <digit> m`, where the layer is the digit `3` for the foreground and `4`
/// for the background. Empty where no colour is given.
pub open spec fn layer_code(layer: u8, c: Option<Color>) -> Seq<u8> {
    match c {
        Some(c) => seq![0x1bu8, 0x5bu8, layer, color_digit(c), 0x6du8],
        None => Seq::empty(),
    }
}

/// The bytes that switch the terminal to `spec`: a reset, then the foreground,
/// then the background.
pub open spec fn set_color_code(spec: ColorSpec) -> Seq<u8> {
    reset_code() + layer_code(0x33u8, spec.fg) + layer_code(0x34u8, spec.bg)
}

/// What goes out before a span under `spec`: the colour where colour is
/// enabled, nothing where it is not.
pub open spec fn color_prefix(enabled: bool, spec: ColorSpec) -> Seq<u8> {
    if enabled {
        set_color_code(spec)
    } else {
        Seq::empty()
    }
}

/// What goes out after a span: the reset where colour is enabled, nothing
/// where it is not.
pub open spec fn color_suffix(enabled: bool) -> Seq<u8> {
    if enabled {
        reset_code()
    } else {
        Seq::empty()
    }
}

/// A span of text under `spec`: framed by the colour and the reset where
/// colour is enabled, the bare text where it is not.
pub open spec fn colored(enabled: bool, spec: ColorSpec, body: Seq<u8>) -> Seq<u8> {
    color_prefix(enabled, spec) + body + color_suffix(enabled)
}

/// Whether `bytes` end with the reset sequence.
pub open spec fn ends_with_reset(bytes: Seq<u8>) -> bool {
    bytes.len() >= 4 && bytes.subrange(bytes.len() - 4, bytes.len() as int) == reset_code()
}

/// Calls `set_color` of termcolor's `Ansi` writer over the buffer. Trusted:
/// for a specification that holds nothing but basic colours it appends the
/// reset sequence, then the foreground sequence, then the background one.
#[verifier::external_body]
fn ansi_set_color(out: &mut Vec<u8>, spec: &ColorSpec)
    ensures
        final(out)@ == old(out)@ + set_color_code(*spec),
{
    let convert = |c: Color| match c {
        Color::Black => termcolor::Color::Black,
        Color::Blue => termcolor::Color::Blue,
        Color::Green => termcolor::Color::Green,
        Color::Red => termcolor::Color::Red,
        Color::Cyan => termcolor::Color::Cyan,
        Color::Magenta => termcolor::Color::Magenta,
        Color::Yellow => termcolor::Color::Yellow,
        Color::White => termcolor::Color::White,
    };
    let mut ansi = termcolor::ColorSpec::new();
    ansi.set_fg(spec.fg.map(convert)).set_bg(spec.bg.map(convert));
    termcolor::WriteColor::set_color(&mut termcolor::Ansi::new(out), &ansi).unwrap();
}

/// Calls `reset` of termcolor's `Ansi` writer over the buffer. Trusted: it
/// appends the reset sequence.
#[verifier::external_body]
fn ansi_reset(out: &mut Vec<u8>)
    ensures
        final(out)@ == old(out)@ + reset_code(),
{
    termcolor::WriteColor::reset(&mut termcolor::Ansi::new(out)).unwrap();
}

/// Calls `atty::is` for the stream. Nothing is promised of the answer: it
/// depends on what the stream is attached to at the time of the call.
#[verifier::external_body]
pub(crate) fn is_terminal(stream: Stream) -> (r: bool)
{
    match stream {
        Stream::Stdout => atty::is(atty::Stream::Stdout),
        Stream::Stderr => atty::is(atty::Stream::Stderr),
    }
}

/// Makes termcolor's `StandardStream` for the stream with `choice` and calls
/// its `supports_color`. Trusted: with `Never` the answer is no; with `Auto`
/// the environment decides, and nothing is promised.
#[verifier::external_body]
fn supports_color(stream: Stream, choice: ColorChoice) -> (r: bool)
    ensures
        choice is Never ==> !r,
{
    let choice = match choice {
        ColorChoice::Auto => termcolor::ColorChoice::Auto,
        ColorChoice::Never => termcolor::ColorChoice::Never,
    };
    let target = match stream {
        Stream::Stdout => termcolor::StandardStream::stdout(choice),
        Stream::Stderr => termcolor::StandardStream::stderr(choice),
    };
    termcolor::WriteColor::supports_color(&target)
}

/// The colour choice for a stream: left to the environment on an interactive
/// terminal, never otherwise.
pub fn color_choice(is_terminal: bool) -> (r: ColorChoice)
    ensures
        is_terminal ==> r is Auto,
        !is_terminal ==> r is Never,
{
    if is_terminal {
        ColorChoice::Auto
    } else {
        ColorChoice::Never
    }
}

/// Whether output to `stream` is coloured, given whether it is an interactive
/// terminal. Never coloured where it is not one.
pub fn color_enabled(stream: Stream, is_terminal: bool) -> (r: bool)
    ensures
        !is_terminal ==> !r,
{
    supports_color(stream, color_choice(is_terminal))
}

/// Appends `bytes` to `out`.
pub fn append_bytes(out: &mut Vec<u8>, bytes: &[u8])
    ensures
        final(out)@ == old(out)@ + bytes@,
{
    let mut i: usize = 0;
    while i < bytes.len()
        invariant
            i <= bytes.len(),
            out@ == old(out)@ + bytes@.take(i as int),
        decreases bytes.len() - i,
    {
        out.push(bytes[i]);
        proof {
            assert(bytes@.take(i + 1) =~= bytes@.take(i as int).push(bytes@[i as int]));
            assert(out@ =~= old(out)@ + bytes@.take(i + 1));
        }
        i = i + 1;
    }
    proof {
        assert(bytes@.take(i as int) =~= bytes@);
    }
}

/// Runs `body` on `out` under `spec`: sets the colour, lets the body write,
/// and restores the default attributes whatever the body returns. Without
/// colour the body alone writes.
pub fn with_color<T, F: FnOnce(&mut Vec<u8>) -> T>(
    out: &mut Vec<u8>,
    enabled: bool,
    spec: &ColorSpec,
    body: F,
) -> (r: T)
    requires
        forall|w: &mut Vec<u8>|
            w@ == old(out)@ + color_prefix(enabled, *spec) ==> #[trigger] body.requires((w,)),
    ensures
        exists|w: &mut Vec<u8>|
            w@ == old(out)@ + color_prefix(enabled, *spec) && #[trigger] body.ensures((w,), r)
                && final(out)@ == final(w)@ + color_suffix(enabled),
        enabled ==> ends_with_reset(final(out)@),
{
    if enabled {
        ansi_set_color(out, spec);
    }
    proof {
        assert(out@ =~= old(out)@ + color_prefix(enabled, *spec));
    }
    let r = body(out);
    let ghost inner = out@;
    if enabled {
        ansi_reset(out);
    }
    proof {
        assert(out@ =~= inner + color_suffix(enabled));
        if enabled {
            assert(out@.subrange(out@.len() - 4, out@.len() as int) =~= reset_code());
        }
    }
    r
}

/// Writes `text` to `out` under `spec`: the colour, the text and the reset
/// where colour is enabled, the bare text where it is not.
pub fn write_colored(out: &mut Vec<u8>, enabled: bool, spec: &ColorSpec, text: &[u8])
    ensures
        final(out)@ == old(out)@ + colored(enabled, *spec, text@),
{
    let body = |w: &mut Vec<u8>|
        ensures
            final(w)@ == old(w)@ + text@,
        { append_bytes(w, text) };
    with_color(out, enabled, spec, body);
    proof {
        assert(out@ =~= old(out)@ + colored(enabled, *spec, text@));
    }
}

/// Runs `body` under `spec` on a fresh buffer, and gives the bytes to send
/// with what the body returned. With colour the body meets the buffer with
/// the colour set, and the reset follows what it wrote; without colour the
/// body meets an empty buffer, and the bytes are what it wrote.
pub fn render_with_color<T, F: FnOnce(&mut Vec<u8>) -> T>(
    enabled: bool,
    spec: &ColorSpec,
    body: F,
) -> (r: (Vec<u8>, T))
    requires
        forall|w: &mut Vec<u8>|
            w@ == color_prefix(enabled, *spec) ==> #[trigger] body.requires((w,)),
    ensures
        exists|w: &mut Vec<u8>|
            w@ == color_prefix(enabled, *spec) && #[trigger] body.ensures((w,), r.1) && r.0@
                == final(w)@ + color_suffix(enabled),
        enabled ==> ends_with_reset(r.0@),
{
    let mut out: Vec<u8> = Vec::new();
    proof {
        assert(out@ + color_prefix(enabled, *spec) =~= color_prefix(enabled, *spec));
    }
    let v = with_color(&mut out, enabled, spec, body);
    let r = (out, v);
    proof {
        let w = choose|w: &mut Vec<u8>|
            w@ == Seq::<u8>::empty() + color_prefix(enabled, *spec) && #[trigger] body.ensures(
                (w,),
                r.1,
            ) && r.0@ == final(w)@ + color_suffix(enabled);
        assert(w@ =~= color_prefix(enabled, *spec));
        assert(w@ == color_prefix(enabled, *spec) && body.ensures((w,), r.1) && r.0@ == final(w)@
            + color_suffix(enabled));
    }
    r
}

/// Runs `body` under `spec` on a fresh buffer for `stream`, given whether the
/// stream is an interactive terminal, and gives the bytes to send there with
/// what the body returned. Off a terminal the body meets an empty buffer and
/// the bytes are what it wrote. On a terminal the environment decides: the
/// same, or the colour before and the reset after what the body wrote.
pub fn stream_with_color_on<T, F: FnOnce(&mut Vec<u8>) -> T>(
    is_terminal: bool,
    stream: Stream,
    spec: &ColorSpec,
    body: F,
) -> (r: (Vec<u8>, T))
    requires
        forall|w: &mut Vec<u8>|
            (w@ == set_color_code(*spec) || w@ == Seq::<u8>::empty()) ==> #[trigger] body.requires(
                (w,),
            ),
    ensures
        (exists|w: &mut Vec<u8>|
            w@ == Seq::<u8>::empty() && #[trigger] body.ensures((w,), r.1) && r.0@ == final(w)@)
            || (is_terminal && exists|w: &mut Vec<u8>|
            w@ == set_color_code(*spec) && #[trigger] body.ensures((w,), r.1) && r.0@ == final(w)@
                + reset_code()),
{
    let enabled = color_enabled(stream, is_terminal);
    let r = render_with_color(enabled, spec, body);
    proof {
        let w = choose|w: &mut Vec<u8>|
            w@ == color_prefix(enabled, *spec) && #[trigger] body.ensures((w,), r.1) && r.0@
                == final(w)@ + color_suffix(enabled);
        if enabled {
            assert(w@ == set_color_code(*spec) && body.ensures((w,), r.1) && r.0@ == final(w)@
                + reset_code());
        } else {
            assert(r.0@ =~= final(w)@);
            assert(w@ == Seq::<u8>::empty() && body.ensures((w,), r.1) && r.0@ == final(w)@);
        }
    }
    r
}

/// Asks whether `stream` is an interactive terminal and goes on as
/// `stream_with_color_on` does.
pub fn stream_with_color<T, F: FnOnce(&mut Vec<u8>) -> T>(
    stream: Stream,
    spec: &ColorSpec,
    body: F,
) -> (r: (Vec<u8>, T))
    requires
        forall|w: &mut Vec<u8>|
            (w@ == set_color_code(*spec) || w@ == Seq::<u8>::empty()) ==> #[trigger] body.requires(
                (w,),
            ),
    ensures
        (exists|w: &mut Vec<u8>|
            w@ == set_color_code(*spec) && #[trigger] body.ensures((w,), r.1) && r.0@ == final(w)@
                + reset_code()) || (exists|w: &mut Vec<u8>|
            w@ == Seq::<u8>::empty() && #[trigger] body.ensures((w,), r.1) && r.0@ == final(w)@),
{
    stream_with_color_on(is_terminal(stream), stream, spec, body)
}

/// `stream_with_color` for standard output.
pub fn stdout_with_color<T, F: FnOnce(&mut Vec<u8>) -> T>(spec: &ColorSpec, body: F) -> (r: (
    Vec<u8>,
    T,
))
    requires
        forall|w: &mut Vec<u8>|
            (w@ == set_color_code(*spec) || w@ == Seq::<u8>::empty()) ==> #[trigger] body.requires(
                (w,),
            ),
    ensures
        (exists|w: &mut Vec<u8>|
            w@ == set_color_code(*spec) && #[trigger] body.ensures((w,), r.1) && r.0@ == final(w)@
                + reset_code()) || (exists|w: &mut Vec<u8>|
            w@ == Seq::<u8>::empty() && #[trigger] body.ensures((w,), r.1) && r.0@ == final(w)@),
{
    stream_with_color(Stream::Stdout, spec, body)
}

/// `stream_with_color` for standard error.
pub fn stderr_with_color<T, F: FnOnce(&mut Vec<u8>) -> T>(spec: &ColorSpec, body: F) -> (r: (
    Vec<u8>,
    T,
))
    requires
        forall|w: &mut Vec<u8>|
            (w@ == set_color_code(*spec) || w@ == Seq::<u8>::empty()) ==> #[trigger] body.requires(
                (w,),
            ),
    ensures
        (exists|w: &mut Vec<u8>|
            w@ == set_color_code(*spec) && #[trigger] body.ensures((w,), r.1) && r.0@ == final(w)@
                + reset_code()) || (exists|w: &mut Vec<u8>|
            w@ == Seq::<u8>::empty() && #[trigger] body.ensures((w,), r.1) && r.0@ == final(w)@),
{
    stream_with_color(Stream::Stderr, spec, body)
}

/// After a coloured span the attributes are back to the default: with colour
/// enabled, whatever was there before, whatever the colours and whatever the
/// body wrote, the bytes end with the reset sequence.
pub proof fn colored_ends_with_reset(before: Seq<u8>, spec: ColorSpec, body: Seq<u8>)
    ensures
        ends_with_reset(before + colored(true, spec, body)),
        ends_with_reset(before + color_prefix(true, spec) + body + color_suffix(true)),
{
    let all = before + colored(true, spec, body);
    assert(all.subrange(all.len() - 4, all.len() as int) =~= reset_code());
    let other = before + color_prefix(true, spec) + body + color_suffix(true);
    assert(other.subrange(other.len() - 4, other.len() as int) =~= reset_code());
}

/// Without colour a span is the bare text: no byte is added to it.
pub proof fn colored_plain_without_color(spec: ColorSpec, body: Seq<u8>)
    ensures
        colored(false, spec, body) == body,
{
    assert(colored(false, spec, body) =~= body);
}

} // verus!
