//! Terminal colours. The escape sequences themselves come from `owo_colors`;
//! this module states which ones and picks among them.

use owo_colors::colors::{Black, Red, Yellow};
use owo_colors::OwoColorize;
use vstd::prelude::*;

use crate::text::{find, lemma_find_unique};

verus! {

/// Foreground colours that the formatter uses.
#[derive(Clone, Copy, Debug, PartialEq, Eq, Structural)]
pub enum Foreground {
    Red,
    Yellow,
}

/// Background colours that the formatter uses. `Default` is the terminal's
/// own background.
#[derive(Clone, Copy, Debug, PartialEq, Eq, Structural)]
pub enum Background {
    Black,
    Default,
}

/// The escape character that starts every colour sequence.
pub open spec fn escape() -> char {
    '\x1b'
}

/// Number of a foreground colour in an escape sequence.
pub open spec fn foreground_code(fg: Foreground) -> Seq<char> {
    match fg {
        Foreground::Red => "31"@,
        Foreground::Yellow => "33"@,
    }
}

/// Number of a background colour in an escape sequence.
pub open spec fn background_code(bg: Background) -> Seq<char> {
    match bg {
        Background::Black => "40"@,
        Background::Default => "49"@,
    }
}

/// The sequence that switches both colours on.
pub open spec fn colors_on(fg: Foreground, bg: Background) -> Seq<char> {
    seq![escape(), '['] + foreground_code(fg) + seq![';'] + background_code(bg) + seq!['m']
}

/// The sequence that switches every attribute off again.
pub open spec fn colors_off() -> Seq<char> {
    seq![escape(), '[', '0', 'm']
}

/// `text` between the sequence that switches the colours on and the one
/// that switches them off.
pub open spec fn painted(fg: Foreground, bg: Background, text: Seq<char>) -> Seq<char> {
    colors_on(fg, bg) + text + colors_off()
}

/// `owo_colors`: `fg::<Red>()` followed by `bg::<Black>()`, displayed. The
/// crate writes one combined sequence, `ESC[31;40m`, then the text, then the
/// reset `ESC[0m`.
#[verifier::external_body]
fn red_on_black(text: &str) -> (out: String)
    ensures
        out@ == "\x1b[31;40m"@ + text@ + "\x1b[0m"@,
{
    format!("{}", text.fg::<Red>().bg::<Black>())
}

/// `owo_colors`: `fg::<Yellow>()` followed by `bg::<Black>()`, displayed:
/// `ESC[33;40m`, the text, `ESC[0m`.
#[verifier::external_body]
fn yellow_on_black(text: &str) -> (out: String)
    ensures
        out@ == "\x1b[33;40m"@ + text@ + "\x1b[0m"@,
{
    format!("{}", text.fg::<Yellow>().bg::<Black>())
}

/// `owo_colors`: `fg::<Red>()` followed by `bg::<Default>()`, displayed:
/// `ESC[31;49m`, the text, `ESC[0m`.
#[verifier::external_body]
fn red_on_default(text: &str) -> (out: String)
    ensures
        out@ == "\x1b[31;49m"@ + text@ + "\x1b[0m"@,
{
    format!("{}", text.fg::<Red>().bg::<owo_colors::colors::Default>())
}

/// `owo_colors`: `fg::<Yellow>()` followed by `bg::<Default>()`, displayed:
/// `ESC[33;49m`, the text, `ESC[0m`.
#[verifier::external_body]
fn yellow_on_default(text: &str) -> (out: String)
    ensures
        out@ == "\x1b[33;49m"@ + text@ + "\x1b[0m"@,
{
    format!("{}", text.fg::<Yellow>().bg::<owo_colors::colors::Default>())
}

/// `text` in the given colours.
pub fn paint(fg: Foreground, bg: Background, text: &str) -> (out: String)
    ensures
        out@ == painted(fg, bg, text@),
{
    proof {
        reveal_strlit("\x1b[31;40m");
        reveal_strlit("\x1b[33;40m");
        reveal_strlit("\x1b[31;49m");
        reveal_strlit("\x1b[33;49m");
        reveal_strlit("\x1b[0m");
        reveal_strlit("31");
        reveal_strlit("33");
        reveal_strlit("40");
        reveal_strlit("49");
    }
    let out = match (fg, bg) {
        (Foreground::Red, Background::Black) => red_on_black(text),
        (Foreground::Yellow, Background::Black) => yellow_on_black(text),
        (Foreground::Red, Background::Default) => red_on_default(text),
        (Foreground::Yellow, Background::Default) => yellow_on_default(text),
    };
    assert(out@ =~= painted(fg, bg, text@));
    out
}

/// `s` holds the character that starts a colour sequence.
pub open spec fn has_escape(s: Seq<char>) -> bool {
    s.contains(escape())
}

/// A concatenation holds an escape character exactly when a part does.
pub proof fn lemma_escape_in_concat(a: Seq<char>, b: Seq<char>)
    ensures
        has_escape(a + b) <==> has_escape(a) || has_escape(b),
{
    if has_escape(a + b) {
        let i = choose|i: int| 0 <= i < (a + b).len() && (a + b)[i] == escape();
        if i < a.len() {
            assert(a[i] == escape());
        } else {
            assert(b[i - a.len()] == escape());
        }
    }
    if has_escape(a) {
        let i = choose|i: int| 0 <= i < a.len() && a[i] == escape();
        assert((a + b)[i] == escape());
    }
    if has_escape(b) {
        let i = choose|i: int| 0 <= i < b.len() && b[i] == escape();
        assert((a + b)[i + a.len()] == escape());
    }
}

/// What is left of `s` on a terminal that takes colours: every run from an
/// escape character to the next `m` is left out.
pub open spec fn visible(s: Seq<char>) -> Seq<char>
    decreases s.len(),
{
    if s.len() == 0 {
        s
    } else if s[0] == escape() {
        let end = find(s, 'm');
        if 0 <= end < s.len() {
            visible(s.skip(end + 1))
        } else {
            Seq::empty()
        }
    } else {
        seq![s[0]] + visible(s.drop_first())
    }
}

/// Text without an escape character is visible as it is, and so is such
/// text before anything else.
pub proof fn lemma_visible_after_plain(text: Seq<char>, rest: Seq<char>)
    requires
        !has_escape(text),
    ensures
        visible(text + rest) == text + visible(rest),
        visible(text) == text,
    decreases text.len(),
{
    if text.len() == 0 {
        assert(text + rest =~= rest);
        assert(text + visible(rest) =~= visible(rest));
    } else {
        let tail = text.drop_first();
        assert(text[0] != escape());
        assert forall|i: int| 0 <= i < tail.len() implies tail[i] != escape() by {
            assert(tail[i] == text[i + 1]);
        }
        lemma_visible_after_plain(tail, rest);
        assert((text + rest).drop_first() =~= tail + rest);
        assert(seq![text[0]] + (tail + visible(rest)) =~= text + visible(rest));
        lemma_visible_after_plain(tail, Seq::empty());
        assert(tail + Seq::<char>::empty() =~= tail);
        assert(visible(Seq::<char>::empty()) =~= Seq::<char>::empty());
        assert(seq![text[0]] + tail =~= text);
    }
}

/// The sequences that switch colours on and off are not visible.
pub proof fn lemma_sequences_are_invisible(fg: Foreground, bg: Background, rest: Seq<char>)
    ensures
        visible(colors_on(fg, bg) + rest) == visible(rest),
        visible(colors_off() + rest) == visible(rest),
{
    reveal_strlit("31");
    reveal_strlit("33");
    reveal_strlit("40");
    reveal_strlit("49");
    let on = colors_on(fg, bg) + rest;
    assert(on[0] == escape());
    assert(on[7] == 'm');
    assert forall|i: int| 0 <= i < 7 implies on[i] != 'm' by {
        assert(on[i] == colors_on(fg, bg)[i]);
    }
    lemma_find_unique(on, 'm', 7);
    assert(on.skip(8) =~= rest);
    let off = colors_off() + rest;
    assert(off[0] == escape());
    assert(off[3] == 'm');
    lemma_find_unique(off, 'm', 3);
    assert(off.skip(4) =~= rest);
}

/// Of painted text only the text is visible.
pub proof fn lemma_visible_of_painted(
    fg: Foreground,
    bg: Background,
    text: Seq<char>,
    rest: Seq<char>,
)
    requires
        !has_escape(text),
    ensures
        visible(painted(fg, bg, text) + rest) == text + visible(rest),
{
    lemma_sequences_are_invisible(fg, bg, text + colors_off() + rest);
    assert(painted(fg, bg, text) + rest =~= colors_on(fg, bg) + (text + colors_off() + rest));
    lemma_visible_after_plain(text, colors_off() + rest);
    assert(text + colors_off() + rest =~= text + (colors_off() + rest));
    lemma_sequences_are_invisible(fg, bg, rest);
}

} // verus!
