//! Line-by-line differences between two texts, and their rendering.
//!
//! The differences themselves are computed by the `similar` crate; this module
//! holds them as plain values and writes them out.

use crate::text::{decimal, format_unsigned, pad_end, pad_start, pad_text_end, pad_text_start};
use vstd::prelude::*;
use vstd::string::*;

verus! {

/// How a line of one text relates to the other text.
#[derive(Clone, Copy, Debug, PartialEq, Eq, Structural)]
pub enum ChangeKind {
    /// The line stands in both texts.
    Equal,
    /// The line stands in the first text only.
    Delete,
    /// The line stands in the second text only.
    Insert,
}

/// One line of a difference.
#[derive(Clone, Debug, PartialEq, Eq)]
pub struct LineChange {
    /// How the line relates to the other text.
    pub kind: ChangeKind,
    /// The line's index in the first text, counted from zero, if it stands there.
    pub old_index: Option<usize>,
    /// The line's index in the second text, counted from zero, if it stands there.
    pub new_index: Option<usize>,
    /// The line, ending in a line break.
    pub text: String,
}

/// The mathematical value of a [`LineChange`].
pub ghost struct LineChangeView {
    pub kind: ChangeKind,
    pub old_index: Option<usize>,
    pub new_index: Option<usize>,
    pub text: Seq<char>,
}

impl View for LineChange {
    type V = LineChangeView;

    open spec fn view(&self) -> LineChangeView {
        LineChangeView {
            kind: self.kind,
            old_index: self.old_index,
            new_index: self.new_index,
            text: self.text@,
        }
    }
}

/// The values of a group of changes.
pub open spec fn changes_view(changes: Seq<LineChange>) -> Seq<LineChangeView> {
    Seq::new(changes.len(), |i: int| changes[i]@)
}

/// The values of a list of groups of changes.
pub open spec fn groups_view(groups: Seq<Vec<LineChange>>) -> Seq<Seq<LineChangeView>> {
    Seq::new(groups.len(), |i: int| changes_view(groups[i]@))
}

/// The number of unchanged lines shown around each changed region.
pub const CONTEXT_LINES: usize = 3;

/// The line differences between `old` and `new`, in groups: each group is a
/// changed region with up to `context` unchanged lines on either side.
pub uninterp spec fn line_diff_groups(old: Seq<char>, new: Seq<char>, context: nat) -> Seq<
    Seq<LineChangeView>,
>;

/// Calls `similar::TextDiff::from_lines`, groups the result with
/// `TextDiff::grouped_ops` and expands each group with `TextDiff::iter_changes`,
/// taking each change's tag, indices and displayed text. Trusted: what comes
/// out depends on the two texts and the context alone.
#[verifier::external_body]
pub(crate) fn diff_lines(old: &str, new: &str, context: usize) -> (groups: Vec<Vec<LineChange>>)
    requires
        2 * context <= usize::MAX,
    ensures
        groups_view(groups@) == line_diff_groups(old@, new@, context as nat),
{
    let diff = similar::TextDiff::from_lines(old, new);
    let convert = |c: similar::Change<&str>| LineChange {
        kind: match c.tag() {
            similar::ChangeTag::Equal => ChangeKind::Equal,
            similar::ChangeTag::Delete => ChangeKind::Delete,
            similar::ChangeTag::Insert => ChangeKind::Insert,
        },
        old_index: c.old_index(),
        new_index: c.new_index(),
        text: c.to_string(),
    };
    let expand = |ops: &Vec<similar::DiffOp>| ops.iter().flat_map(|op| diff.iter_changes(op)).map(convert).collect();
    diff.grouped_ops(context).iter().map(expand).collect()
}

/// The number shown before a line: its place in the first text, counted from
/// one; for a line of the second text only, its place there; zero for a line
/// with no place.
pub open spec fn line_number(change: LineChangeView) -> nat {
    match change.old_index {
        Some(i) => (i + 1) as nat,
        None => match change.new_index {
            Some(j) => (j + 1) as nat,
            None => 0,
        },
    }
}

/// One rendered line: the number in a column of four, the mark, the text.
pub open spec fn render_change(change: LineChangeView) -> Seq<char> {
    match change.kind {
        ChangeKind::Delete => pad_end(decimal(line_number(change)), 4) + " - | "@ + change.text,
        ChangeKind::Insert => pad_end(decimal(line_number(change)), 4) + " + | "@ + change.text,
        ChangeKind::Equal => pad_start(decimal(line_number(change)), 4) + "   | "@ + change.text,
    }
}

/// The rendered lines of a sequence of changes, one after the other.
pub open spec fn render_changes(changes: Seq<LineChangeView>) -> Seq<char>
    decreases changes.len(),
{
    if changes.len() == 0 {
        Seq::empty()
    } else {
        render_changes(changes.drop_last()) + render_change(changes.last())
    }
}

/// The line that opens each group.
pub open spec fn legend() -> Seq<char> {
    "Legend: - gccrs, + rustc\n"@
}

/// The rendered groups, one after the other, each under its legend.
pub open spec fn render_groups_spec(groups: Seq<Seq<LineChangeView>>) -> Seq<char>
    decreases groups.len(),
{
    if groups.len() == 0 {
        Seq::empty()
    } else {
        render_groups_spec(groups.drop_last()) + legend() + render_changes(groups.last())
    }
}

/// The line that says that the text of one side is empty, where it is.
pub open spec fn empty_note(label: Seq<char>, text: Seq<char>) -> Seq<char> {
    if text.len() == 0 {
        label + "(empty)\n"@
    } else {
        Seq::empty()
    }
}

/// The rendered difference between two texts: a note for each side that is
/// empty, then the groups of changed lines with their context.
pub open spec fn render_text_diff_spec(gccrs: Seq<char>, rustc: Seq<char>) -> Seq<char> {
    empty_note("gccrs: "@, gccrs) + empty_note("rustc: "@, rustc) + render_groups_spec(
        line_diff_groups(gccrs, rustc, CONTEXT_LINES as nat),
    )
}

/// Renders one line of a difference.
pub fn render_line(change: &LineChange) -> (out: String)
    ensures
        out@ == render_change(change@),
{
    let number: u128 = match change.old_index {
        Some(i) => i as u128 + 1,
        None => match change.new_index {
            Some(j) => j as u128 + 1,
            None => 0,
        },
    };
    let digits = format_unsigned(number);
    let mut out = match change.kind {
        ChangeKind::Delete => {
            let mut column = pad_text_end(digits.as_str(), 4);
            column.append(" - | ");
            column
        },
        ChangeKind::Insert => {
            let mut column = pad_text_end(digits.as_str(), 4);
            column.append(" + | ");
            column
        },
        ChangeKind::Equal => {
            let mut column = pad_text_start(digits.as_str(), 4);
            column.append("   | ");
            column
        },
    };
    out.append(change.text.as_str());
    out
}

/// Renders groups of changed lines, each under its legend.
pub fn render_groups(groups: &Vec<Vec<LineChange>>) -> (out: String)
    ensures
        out@ == render_groups_spec(groups_view(groups@)),
{
    let ghost all = groups_view(groups@);
    let mut out = String::new();
    let mut g: usize = 0;
    assert(all.take(0) =~= Seq::empty());
    while g < groups.len()
        invariant
            g <= groups.len(),
            all == groups_view(groups@),
            out@ == render_groups_spec(all.take(g as int)),
        decreases groups.len() - g,
    {
        let group = &groups[g];
        let ghost lines = changes_view(group@);
        out.append("Legend: - gccrs, + rustc\n");
        let ghost head = out@;
        let mut i: usize = 0;
        assert(lines.take(0) =~= Seq::empty());
        while i < group.len()
            invariant
                i <= group.len(),
                lines == changes_view(group@),
                out@ == head + render_changes(lines.take(i as int)),
            decreases group.len() - i,
        {
            let line = render_line(&group[i]);
            out.append(line.as_str());
            proof {
                let upto = lines.take(i as int + 1);
                assert(upto.drop_last() =~= lines.take(i as int));
                assert(upto.last() == group@[i as int]@);
                assert(out@ =~= head + render_changes(upto));
            }
            i += 1;
        }
        proof {
            assert(lines.take(group.len() as int) =~= lines);
            let upto = all.take(g as int + 1);
            assert(upto.drop_last() =~= all.take(g as int));
            assert(upto.last() == lines);
            assert(out@ =~= render_groups_spec(upto));
        }
        g += 1;
    }
    assert(all.take(groups.len() as int) =~= all);
    out
}

/// Renders the difference between two texts.
pub fn render_text_diff(gccrs: &str, rustc: &str) -> (out: String)
    ensures
        out@ == render_text_diff_spec(gccrs@, rustc@),
{
    let mut out = String::new();
    if gccrs.unicode_len() == 0 {
        out.append("gccrs: ");
        out.append("(empty)\n");
    }
    if rustc.unicode_len() == 0 {
        out.append("rustc: ");
        out.append("(empty)\n");
    }
    let groups = diff_lines(gccrs, rustc, CONTEXT_LINES);
    let body = render_groups(&groups);
    out.append(body.as_str());
    assert(out@ =~= render_text_diff_spec(gccrs@, rustc@));
    out
}

} // verus!
