//! Display lines: text in which every character is either plain or emphasized.

use vstd::prelude::*;

verus! {

/// One character of a display line.
#[derive(Clone, Copy, Debug, PartialEq, Eq)]
pub struct Cell {
    pub ch: char,
    pub emphasized: bool,
}

/// The cell that shows `ch`, emphasized or not.
pub open spec fn cell(ch: char, emphasized: bool) -> Cell {
    Cell { ch, emphasized }
}

/// The cells that show `text`, all of them emphasized or none.
pub open spec fn cells_of(text: Seq<char>, emphasized: bool) -> Seq<Cell> {
    Seq::new(text.len(), |i: int| cell(text[i], emphasized))
}

/// The cells that show `text` with no character emphasized.
pub open spec fn plain_cells(text: Seq<char>) -> Seq<Cell> {
    cells_of(text, false)
}

/// The characters of `cells`, without their marks.
pub open spec fn text_of(cells: Seq<Cell>) -> Seq<char> {
    Seq::new(cells.len(), |i: int| cells[i].ch)
}

/// One rendered output row.
#[derive(Clone, Debug, PartialEq, Eq)]
pub struct DisplayLine {
    pub cells: Vec<Cell>,
}

impl View for DisplayLine {
    type V = Seq<Cell>;

    open spec fn view(&self) -> Seq<Cell> {
        self.cells@
    }
}

impl DisplayLine {
    /// What the line reads once every mark is taken away.
    pub open spec fn text(&self) -> Seq<char> {
        text_of(self@)
    }

    /// The line that shows `text` verbatim.
    pub fn plain(text: &str) -> (line: DisplayLine)
        ensures
            line@ == plain_cells(text@),
            line.text() == text@,
    {
        let mut cells: Vec<Cell> = Vec::new();
        push_text(&mut cells, text, false);
        let line = DisplayLine { cells };
        assert(line@ =~= plain_cells(text@));
        assert(line.text() =~= text@);
        line
    }
}

/// Appends the characters of `text` to `cells`, all of them emphasized or none.
pub fn push_text(cells: &mut Vec<Cell>, text: &str, emphasized: bool)
    ensures
        final(cells)@ == old(cells)@ + cells_of(text@, emphasized),
{
    let n: usize = text.unicode_len();
    let mut i: usize = 0;
    while i < n
        invariant
            n == text@.len(),
            i <= n,
            cells@.len() == old(cells)@.len() + i,
            forall|j: int| 0 <= j < old(cells)@.len() ==> #[trigger] cells@[j] == old(cells)@[j],
            forall|j: int|
                0 <= j < i ==> #[trigger] cells@[old(cells)@.len() + j] == cell(
                    text@[j],
                    emphasized,
                ),
        decreases n - i,
    {
        let ch = text.get_char(i);
        cells.push(Cell { ch, emphasized });
        i += 1;
    }
    proof {
        let before = old(cells)@;
        let added = cells_of(text@, emphasized);
        assert forall|k: int| 0 <= k < cells@.len() implies cells@[k] == (before + added)[k] by {
            if k >= before.len() {
                assert(cells@[before.len() + (k - before.len())] == cell(
                    text@[k - before.len()],
                    emphasized,
                ));
            }
        }
        assert(cells@ =~= before + added);
    }
}

/// The text of two runs of cells is the text of the first followed by the
/// text of the second.
pub proof fn lemma_text_of_concat(a: Seq<Cell>, b: Seq<Cell>)
    ensures
        text_of(a + b) == text_of(a) + text_of(b),
{
    assert(text_of(a + b) =~= text_of(a) + text_of(b));
}

/// Whatever the marks, the cells that show a text read as that text.
pub proof fn lemma_text_of_cells(text: Seq<char>, emphasized: bool)
    ensures
        text_of(cells_of(text, emphasized)) == text,
{
    assert(text_of(cells_of(text, emphasized)) =~= text);
}

} // verus!
