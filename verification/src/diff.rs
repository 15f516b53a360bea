//! Character-level differences between two texts, and the display line that
//! shows the newer text with what changed emphasized.

use crate::line::{cells_of, lemma_text_of_cells, lemma_text_of_concat, push_text, text_of, Cell, DisplayLine};
use vstd::prelude::*;

verus! {

/// How one piece of an alignment relates the older text to the newer one.
#[derive(Clone, Copy, Debug, PartialEq, Eq)]
pub enum ChangeTag {
    /// Present only in the older text.
    Delete,
    /// Present in both texts.
    Equal,
    /// Present only in the newer text.
    Insert,
}

/// One piece of an alignment: a run of characters and how it is classified.
#[derive(Clone, Debug, PartialEq, Eq)]
pub struct Change {
    pub tag: ChangeTag,
    pub value: String,
}

/// The mathematical value of a `Change`.
pub struct Edit {
    pub tag: ChangeTag,
    pub text: Seq<char>,
}

impl View for Change {
    type V = Edit;

    open spec fn view(&self) -> Edit {
        Edit { tag: self.tag, text: self.value@ }
    }
}

/// The mathematical value of a list of changes.
pub open spec fn edits_of(changes: Seq<Change>) -> Seq<Edit> {
    Seq::new(changes.len(), |i: int| changes[i]@)
}

/// The alignment that `similar` computes between the characters of two texts.
pub uninterp spec fn char_diff(old_text: Seq<char>, new_text: Seq<char>) -> Seq<Edit>;

/// The text that an alignment leads to: what its pieces spell, in order, once
/// the deleted ones are left out.
pub open spec fn new_side(edits: Seq<Edit>) -> Seq<char>
    decreases edits.len(),
{
    if edits.len() == 0 {
        Seq::empty()
    } else {
        new_side(edits.drop_last()) + kept_text(edits.last())
    }
}

/// What one piece adds to the newer text.
pub open spec fn kept_text(edit: Edit) -> Seq<char> {
    match edit.tag {
        ChangeTag::Delete => Seq::empty(),
        ChangeTag::Equal => edit.text,
        ChangeTag::Insert => edit.text,
    }
}

/// The cells that one piece adds to a display line: nothing for a deletion,
/// plain characters for an unchanged run, emphasized ones for an insertion.
pub open spec fn edit_cells(edit: Edit) -> Seq<Cell> {
    match edit.tag {
        ChangeTag::Delete => Seq::empty(),
        ChangeTag::Equal => cells_of(edit.text, false),
        ChangeTag::Insert => cells_of(edit.text, true),
    }
}

/// The cells of the display line for an alignment.
pub open spec fn diff_cells(edits: Seq<Edit>) -> Seq<Cell>
    decreases edits.len(),
{
    if edits.len() == 0 {
        Seq::empty()
    } else {
        diff_cells(edits.drop_last()) + edit_cells(edits.last())
    }
}

/// Stripped of its marks, the display line for an alignment reads as the text
/// that the alignment leads to: nothing is cut short and nothing reordered.
pub proof fn lemma_diff_cells_text(edits: Seq<Edit>)
    ensures
        text_of(diff_cells(edits)) == new_side(edits),
    decreases edits.len(),
{
    if edits.len() == 0 {
        assert(text_of(diff_cells(edits)) =~= new_side(edits));
    } else {
        lemma_diff_cells_text(edits.drop_last());
        lemma_text_of_concat(diff_cells(edits.drop_last()), edit_cells(edits.last()));
        lemma_text_of_cells(edits.last().text, false);
        lemma_text_of_cells(edits.last().text, true);
        assert(text_of(Seq::<Cell>::empty()) =~= Seq::<char>::empty());
    }
}

/// Builds the display line for a list of changes.
pub fn line_from_changes(changes: &Vec<Change>) -> (line: DisplayLine)
    ensures
        line@ == diff_cells(edits_of(changes@)),
        line.text() == new_side(edits_of(changes@)),
{
    let ghost edits = edits_of(changes@);
    let mut cells: Vec<Cell> = Vec::new();
    let mut k: usize = 0;
    while k < changes.len()
        invariant
            k <= changes.len(),
            edits == edits_of(changes@),
            cells@ == diff_cells(edits.take(k as int)),
        decreases changes.len() - k,
    {
        let change = &changes[k];
        proof {
            assert(edits.take(k + 1).drop_last() =~= edits.take(k as int));
            assert(edits.take(k + 1).last() == change@);
        }
        match change.tag {
            ChangeTag::Delete => {
                assert(cells@ + Seq::<Cell>::empty() =~= cells@);
            },
            ChangeTag::Equal => {
                push_text(&mut cells, change.value.as_str(), false);
            },
            ChangeTag::Insert => {
                push_text(&mut cells, change.value.as_str(), true);
            },
        }
        k += 1;
    }
    proof {
        assert(edits.take(k as int) =~= edits);
        lemma_diff_cells_text(edits);
    }
    DisplayLine { cells }
}

/// `similar::TextDiff::from_chars` followed by `iter_all_changes`: the
/// character-level alignment of two texts as a list of changes, each with its
/// tag and its value copied out. The alignment depends on the two texts alone,
/// and it leads from the older text to the newer one: the values of the changes
/// that are not deletions, read in order, spell the newer text.
#[verifier::external_body]
fn char_changes(old_text: &str, new_text: &str) -> (changes: Vec<Change>)
    ensures
        edits_of(changes@) == char_diff(old_text@, new_text@),
        new_side(edits_of(changes@)) == new_text@,
{
    similar::TextDiff::from_chars(old_text, new_text)
        .iter_all_changes()
        .map(|change| Change {
            tag: match change.tag() {
                similar::ChangeTag::Delete => ChangeTag::Delete,
                similar::ChangeTag::Equal => ChangeTag::Equal,
                similar::ChangeTag::Insert => ChangeTag::Insert,
            },
            value: String::from(change.value()),
        })
        .collect()
}

/// The display line for `current` when `previous` was shown before it: the
/// characters of `current`, in order and in full, with those that the
/// alignment counts as inserted emphasized.
pub fn diff_line(previous: &str, current: &str) -> (line: DisplayLine)
    ensures
        line@ == diff_cells(char_diff(previous@, current@)),
        line.text() == current@,
{
    let changes = char_changes(previous, current);
    line_from_changes(&changes)
}

} // verus!
