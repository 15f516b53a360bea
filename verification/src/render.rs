//! Turning display lines into terminal text. Emphasis is drawn by `colored`,
//! which decides from the environment whether to style at all, so a rendered
//! line is known only up to that decision.

use crate::line::{cell, text_of, Cell, DisplayLine};
use colored::Colorize;
use vstd::prelude::*;
use vstd::string::StringExecFns;

verus! {

/// The escape sequence that switches on underlined yellow.
pub open spec fn emphasis_open() -> Seq<char> {
    seq!['\u{1b}', '[', '4', ';', '3', '3', 'm']
}

/// The escape sequence that switches on bold red.
pub open spec fn error_open() -> Seq<char> {
    seq!['\u{1b}', '[', '1', ';', '3', '1', 'm']
}

/// The escape sequence that switches every style off.
pub open spec fn style_reset() -> Seq<char> {
    seq!['\u{1b}', '[', '0', 'm']
}

/// The word that starts an error line.
pub open spec fn error_word() -> Seq<char> {
    seq!['e', 'r', 'r', 'o', 'r', ':']
}

/// The terminal text of one cell. A plain cell is its character. An
/// emphasized cell is its character between the escape sequences where
/// styling is on, and its bare character where it is off.
pub open spec fn rendered_cell(c: Cell, styled: bool) -> Seq<char> {
    if c.emphasized && styled {
        emphasis_open() + seq![c.ch] + style_reset()
    } else {
        seq![c.ch]
    }
}

/// The terminal text of a run of cells, where `styled[i]` says whether
/// styling was on when cell `i` was drawn.
pub open spec fn rendered(cells: Seq<Cell>, styled: Seq<bool>) -> Seq<char>
    recommends
        styled.len() == cells.len(),
    decreases cells.len(),
{
    if cells.len() == 0 {
        Seq::empty()
    } else {
        rendered(cells.drop_last(), styled.drop_last()) + rendered_cell(cells.last(), styled.last())
    }
}

/// The label of an error line, with styling on or off.
pub open spec fn error_label_text(styled: bool) -> Seq<char> {
    if styled {
        error_open() + error_word() + style_reset()
    } else {
        error_word()
    }
}

/// The line that reports `reason`: the label, one space, the reason.
pub open spec fn error_line_text(reason: Seq<char>, styled: bool) -> Seq<char> {
    error_label_text(styled) + seq![' '] + reason
}

/// `String::push` of std: appends one character to the string.
pub assume_specification[ String::push ](s: &mut String, ch: char)
    ensures
        final(s)@ == old(s)@.push(ch),
;

/// `colored::Colorize::yellow` and `underline` on the one-character text
/// `ch`, then `to_string`: where `colored` finds styling switched on, the
/// character between the escape sequence for underlined yellow and the reset
/// sequence; where it finds it off, the character alone.
#[verifier::external_body]
fn emphasize(ch: char) -> (out: String)
    ensures
        out@ == rendered_cell(cell(ch, true), true) || out@ == rendered_cell(cell(ch, true), false),
{
    String::from(ch).as_str().yellow().underline().to_string()
}

/// `colored::Colorize::bold` and `red` on the word `error:`, then
/// `to_string`: the word between the escape sequence for bold red and the
/// reset sequence where styling is on, the bare word where it is off.
#[verifier::external_body]
fn error_label() -> (out: String)
    ensures
        out@ == error_label_text(true) || out@ == error_label_text(false),
{
    "error:".bold().red().to_string()
}

/// Where no cell is emphasized, styling makes no difference: the terminal
/// text is the text of the cells.
pub proof fn lemma_rendered_plain(cells: Seq<Cell>, styled: Seq<bool>)
    requires
        forall|i: int| 0 <= i < cells.len() ==> !(#[trigger] cells[i]).emphasized,
    ensures
        rendered(cells, styled) == text_of(cells),
    decreases cells.len(),
{
    if cells.len() == 0 {
        assert(rendered(cells, styled) =~= text_of(cells));
    } else {
        let front = cells.drop_last();
        assert forall|i: int| 0 <= i < front.len() implies !(#[trigger] front[i]).emphasized by {
            assert(front[i] == cells[i]);
        }
        lemma_rendered_plain(front, styled.drop_last());
        assert(!cells[cells.len() - 1].emphasized);
        assert(text_of(cells) =~= text_of(front) + seq![cells.last().ch]);
    }
}

/// Where styling is off for every cell, the terminal text is the text of the
/// cells, whatever their marks.
pub proof fn lemma_rendered_unstyled(cells: Seq<Cell>, styled: Seq<bool>)
    requires
        styled.len() == cells.len(),
        forall|i: int| 0 <= i < styled.len() ==> !#[trigger] styled[i],
    ensures
        rendered(cells, styled) == text_of(cells),
    decreases cells.len(),
{
    if cells.len() == 0 {
        assert(rendered(cells, styled) =~= text_of(cells));
    } else {
        let front = cells.drop_last();
        let front_styled = styled.drop_last();
        assert forall|i: int| 0 <= i < front_styled.len() implies !#[trigger] front_styled[i] by {
            assert(front_styled[i] == styled[i]);
        }
        lemma_rendered_unstyled(front, front_styled);
        assert(!styled[styled.len() - 1]);
        assert(text_of(cells) =~= text_of(front) + seq![cells.last().ch]);
    }
}

impl DisplayLine {
    /// The terminal text of the line, without a line break: every plain
    /// character as it is, every emphasized one as `colored` draws it.
    pub fn render(&self) -> (out: String)
        ensures
            exists|styled: Seq<bool>|
                styled.len() == self@.len() && out@ == rendered(self@, styled),
            (forall|i: int| 0 <= i < self@.len() ==> !(#[trigger] self@[i]).emphasized) ==> out@
                == self.text(),
    {
        let mut out = String::new();
        let ghost mut styled: Seq<bool> = Seq::empty();
        let mut i: usize = 0;
        while i < self.cells.len()
            invariant
                i <= self.cells.len(),
                styled.len() == i,
                out@ == rendered(self@.take(i as int), styled),
            decreases self.cells.len() - i,
        {
            let c = self.cells[i];
            let ghost before = out@;
            let ghost mut on: bool = false;
            if c.emphasized {
                let piece = emphasize(c.ch);
                proof {
                    on = piece@ == rendered_cell(cell(c.ch, true), true);
                }
                out.append(piece.as_str());
            } else {
                out.push(c.ch);
                assert(before.push(c.ch) =~= before + seq![c.ch]);
            }
            proof {
                let next = styled.push(on);
                assert(self@.take(i + 1).drop_last() =~= self@.take(i as int));
                assert(self@.take(i + 1).last() == c);
                assert(next.drop_last() =~= styled);
                assert(next.last() == on);
                assert(c == cell(c.ch, c.emphasized));
                styled = next;
            }
            i += 1;
        }
        proof {
            assert(self@.take(i as int) =~= self@);
            if forall|i: int| 0 <= i < self@.len() ==> !(#[trigger] self@[i]).emphasized {
                lemma_rendered_plain(self@, styled);
            }
        }
        out
    }
}

/// The line that reports `reason` to the user, without a line break: the
/// label `error:` as `colored` draws it in bold red, one space, the reason.
pub fn error_line(reason: &str) -> (out: String)
    ensures
        out@ == error_line_text(reason@, true) || out@ == error_line_text(reason@, false),
{
    let mut out = error_label();
    let ghost label = out@;
    out.push(' ');
    assert(label.push(' ') =~= label + seq![' ']);
    out.append(reason);
    out
}

} // verus!
