//! What is shown: colors hide nothing, cells are filled up, tables show every
//! cell, and messages say their values.

use crate::cli::notice::{english, expanded, value_named, Notice};
use crate::cli::terminal::{
    bold_colored, cell, check_badge, colored, escape_after, header_cells, in_color,
    is_color_enabled, law_color_is_invisible, law_padding_fills, pad_cell, padded, render_table,
    repeated, row_cells, row_lines, severity_badge, strip_ansi, table_widths, visible,
    visible_width, width, Align,
};
use crate::laws::terms::stands_in;
use crate::laws::text::{lemma_part_of_join, lemma_stands_in};
use crate::text::{join, lemma_find_is};
use vstd::prelude::*;

verus! {

proof fn lemma_visible_plain(s: Seq<char>)
    requires
        !s.contains('\x1b'),
    ensures
        visible(s, false) == s,
        !escape_after(s, false),
    decreases s.len(),
{
    if s.len() > 0 {
        let rest = s.drop_first();
        assert(s[0] != '\x1b') by {
            if s[0] == '\x1b' {
                assert(s.contains('\x1b'));
            }
        }
        assert(!rest.contains('\x1b')) by {
            if rest.contains('\x1b') {
                let i = choose|i: int| 0 <= i < rest.len() && rest[i] == '\x1b';
                assert(s[i + 1] == '\x1b');
            }
        }
        lemma_visible_plain(rest);
        assert(seq![s[0]] + rest =~= s);
    } else {
        assert(visible(s, false) =~= s);
    }
}

proof fn lemma_no_escape(s: Seq<char>, open: bool)
    ensures
        !visible(s, open).contains('\x1b'),
        visible(s, open).len() <= s.len(),
    decreases s.len(),
{
    if s.len() > 0 {
        lemma_no_escape(s.drop_first(), true);
        lemma_no_escape(s.drop_first(), false);
        let v = visible(s, open);
        if v.contains('\x1b') {
            let i = choose|i: int| 0 <= i < v.len() && v[i] == '\x1b';
            if s[0] != '\x1b' && !open {
                let w = visible(s.drop_first(), false);
                if i > 0 {
                    assert(w[i - 1] == '\x1b');
                    assert(w.contains('\x1b'));
                }
            }
        }
    }
}

/// What is visible holds no escape character; a text without one is visible as
/// it is, and as wide as it is long.
pub proof fn law_visible(text: &str, r: String, n: usize)
    requires
        call_ensures(strip_ansi, (text,), r),
        call_ensures(visible_width, (text,), n),
    ensures
        !r@.contains('\x1b'),
        n == r@.len(),
        !text@.contains('\x1b') ==> r@ == text@,
{
    lemma_no_escape(text@, false);
    if !text@.contains('\x1b') {
        lemma_visible_plain(text@);
    }
}

/// Color changes nothing of what is visible, and nothing at all where colors are
/// off; where they are on, it is there.
pub proof fn law_colors(
    text: &str,
    code: u8,
    color: bool,
    plain: String,
    painted: String,
    painted_ref: &str,
    bold: String,
    bold_ref: &str,
    shown: String,
    bold_shown: String,
)
    requires
        call_ensures(strip_ansi, (text,), plain),
        call_ensures(colored, (text, code, color), painted),
        painted_ref@ == painted@,
        call_ensures(strip_ansi, (painted_ref,), shown),
        call_ensures(bold_colored, (text, code, color), bold),
        bold_ref@ == bold@,
        call_ensures(strip_ansi, (bold_ref,), bold_shown),
    ensures
        shown@ == plain@,
        bold_shown@ == plain@,
        !color ==> painted@ == text@ && bold@ == text@,
        color ==> painted@ != text@ && bold@ != text@,
        stands_in(text@, painted@),
        stands_in(text@, bold@),
{
    law_color_is_invisible(text@, code, color);
    let none = Seq::<char>::empty();
    if color {
        reveal_strlit("\x1b[");
        reveal_strlit("\x1b[1;");
        reveal_strlit("\x1b[0m");
        let head = "\x1b["@ + crate::text::decimal(code as nat) + "m"@;
        let bold_head = "\x1b[1;"@ + crate::text::decimal(code as nat) + "m"@;
        assert(painted@ =~= (head + text@) + "\x1b[0m"@);
        assert(bold@ =~= (bold_head + text@) + "\x1b[0m"@);
        assert(painted@.len() > text@.len());
        assert(bold@.len() > text@.len());
    } else {
        assert(text@ =~= (none + text@) + none);
    }
}

/// Colors are on unless they are turned off or the terminal cannot show them.
pub proof fn law_when_colors_are_on(off: bool, term: Option<&str>, r: bool)
    requires
        call_ensures(is_color_enabled, (off, term), r),
    ensures
        off ==> !r,
        !off && term is None ==> r,
        !off && term is Some ==> (r <==> term->0@ != "dumb"@),
{
}

/// A cell keeps its text, on the side where it belongs, and is as wide as it has
/// to be.
pub proof fn law_cells(
    text: &str,
    target: usize,
    align: Align,
    r: String,
    r_ref: &str,
    before: usize,
    after: usize,
)
    requires
        call_ensures(pad_cell, (text, target, align), r),
        r_ref@ == r@,
        call_ensures(visible_width, (text,), before),
        call_ensures(visible_width, (r_ref,), after),
        !text@.contains('\x1b'),
    ensures
        before >= target ==> r@ == text@,
        before < target ==> after == target,
        align is Left ==> text@.is_prefix_of(r@),
        align is Right && before < target ==> r@.skip(target - before) == text@,
        align is Right && before < target ==> forall|i: int|
            0 <= i < target - before ==> r@[i] == ' ',
{
    lemma_visible_plain(text@);
    law_padding_fills(text@, target as nat, align);
    if before < target {
        let spaces = repeated(' ', (target - before) as nat);
        if align is Left {
            assert(r@ == text@ + spaces);
            assert(r@.take(text@.len() as int) =~= text@);
        } else {
            assert(r@ == spaces + text@);
            assert(r@.skip(target - before) =~= text@);
        }
    } else {
        assert(r@.take(text@.len() as int) =~= text@);
    }
}

proof fn lemma_padded(text: Seq<char>, target: nat, align: Align)
    ensures
        stands_in(text, padded(text, target, align)),
{
    let none = Seq::<char>::empty();
    if width(text) >= target {
        assert(text =~= (none + text) + none);
    } else {
        let spaces = repeated(' ', (target - width(text)) as nat);
        if align is Left {
            assert(text + spaces =~= (none + text) + spaces);
        } else {
            assert(spaces + text =~= (spaces + text) + none);
        }
    }
}

proof fn lemma_row(columns: Seq<(&str, Align)>, widths: Seq<nat>, rows: Seq<Vec<String>>, k: int)
    requires
        0 <= k < rows.len(),
    ensures
        stands_in(join(row_cells(columns, widths, rows[k]@), "  "@), row_lines(columns, widths, rows)),
    decreases rows.len(),
{
    let all = row_lines(columns, widths, rows);
    let front = row_lines(columns, widths, rows.drop_last());
    let last = join(row_cells(columns, widths, rows.last()@), "  "@);
    assert(all == front + last + "\n"@);
    if k == rows.len() - 1 {
        assert(all =~= (front + last) + "\n"@);
    } else {
        lemma_row(columns, widths, rows.drop_last(), k);
        let line = join(row_cells(columns, widths, rows[k]@), "  "@);
        let (before, after) = choose|before: Seq<char>, after: Seq<char>|
            front == #[trigger] ((before + line) + after);
        assert(all =~= (before + line) + (after + last + "\n"@));
    }
}

/// Every header and every cell of a table is in it; without columns there is
/// nothing.
pub proof fn law_tables(
    columns: &[(&str, Align)],
    rows: &[Vec<String>],
    color: bool,
    k: int,
    i: int,
    r: String,
)
    requires
        call_ensures(render_table, (columns, rows, color), r),
    ensures
        columns@.len() == 0 ==> r@.len() == 0,
        0 <= i < columns@.len() ==> stands_in(columns@[i].0@, r@),
        0 <= i < columns@.len() && 0 <= k < rows@.len() && i < rows@[k]@.len() ==> stands_in(
            rows@[k]@[i]@,
            r@,
        ),
{
    if 0 <= i < columns@.len() {
        let widths = table_widths(columns@, rows@);
        let headers = header_cells(columns@, widths);
        let head = join(headers, "  "@);
        let painted = in_color(head, crate::cli::terminal::MUTED, color);
        let rule = in_color(
            join(crate::cli::terminal::rule_cells(widths), "──"@),
            crate::cli::terminal::MUTED,
            color,
        );
        let lines = row_lines(columns@, widths, rows@);
        let none = Seq::<char>::empty();
        assert(r@ == painted + "\n"@ + rule + "\n"@ + lines);
        assert(r@ =~= (none + painted) + ("\n"@ + rule + "\n"@ + lines));
        lemma_padded(columns@[i].0@, widths[i], columns@[i].1);
        lemma_part_of_join(headers, "  "@, i);
        lemma_stands_in(columns@[i].0@, headers[i], head);
        assert(stands_in(head, painted)) by {
            if color {
                let open = "\x1b["@ + crate::text::decimal(
                    crate::cli::terminal::MUTED as nat,
                ) + "m"@;
                assert(painted =~= (open + head) + "\x1b[0m"@);
            } else {
                assert(painted =~= (none + head) + none);
            }
        }
        lemma_stands_in(columns@[i].0@, head, painted);
        lemma_stands_in(columns@[i].0@, painted, r@);
        if 0 <= k < rows@.len() && i < rows@[k]@.len() {
            let cells = row_cells(columns@, widths, rows@[k]@);
            lemma_padded(cell(rows@[k]@, i), widths[i], columns@[i].1);
            lemma_part_of_join(cells, "  "@, i);
            lemma_stands_in(rows@[k]@[i]@, cells[i], join(cells, "  "@));
            lemma_row(columns@, widths, rows@, k);
            lemma_stands_in(rows@[k]@[i]@, join(cells, "  "@), lines);
            assert(r@ =~= ((painted + "\n"@ + rule + "\n"@) + lines) + none);
            lemma_stands_in(rows@[k]@[i]@, lines, r@);
        }
    }
}

proof fn lemma_severities()
    ensures
        "CRIT"@ != "HIGH"@,
        "CRIT"@ != "INFO"@,
        "HIGH"@ != "INFO"@,
        " MED"@ != "INFO"@,
        "MED"@ != "INFO"@,
        " LOW"@ != "INFO"@,
        "LOW"@ != "INFO"@,
{
    reveal_strlit("CRIT");
    reveal_strlit("HIGH");
    reveal_strlit(" MED");
    reveal_strlit("MED");
    reveal_strlit(" LOW");
    reveal_strlit("LOW");
    reveal_strlit("INFO");
    assert("CRIT"@[0] == 'C' && "HIGH"@[0] == 'H' && "INFO"@[0] == 'I');
    assert(" MED"@[0] == ' ' && " LOW"@[0] == ' ');
    assert("MED"@[0] == 'M' && "LOW"@[0] == 'L');
}

/// A badge of a severity shows it, in color or not.
pub proof fn law_severity_badges(text: &str, color: bool, r: String)
    requires
        call_ensures(severity_badge, (text, color), r),
    ensures
        text@ == "CRIT"@ ==> stands_in("[CRIT]"@, r@),
        text@ == "HIGH"@ ==> stands_in("[HIGH]"@, r@),
        text@ == "INFO"@ ==> stands_in("[INFO]"@, r@),
{
    lemma_severities();
    lemma_bold("[CRIT]"@, crate::cli::terminal::ERROR, color);
    lemma_bold("[HIGH]"@, crate::cli::terminal::WARN, color);
    lemma_bold("[INFO]"@, crate::cli::terminal::MUTED, color);
}

/// A badge of a check shows it, in color or not.
pub proof fn law_check_badges(text: &str, color: bool, r: String)
    requires
        call_ensures(check_badge, (text, color), r),
    ensures
        stands_in(text@, r@),
{
    let s = text@;
    lemma_bold(s, crate::cli::terminal::ERROR, color);
    lemma_paint(s, crate::cli::terminal::SUCCESS, color);
    lemma_paint(s, crate::cli::terminal::WARN, color);
    lemma_paint(s, crate::cli::terminal::MUTED, color);
    let none = Seq::<char>::empty();
    assert(s =~= (none + s) + none);
}

proof fn lemma_bold(text: Seq<char>, code: u8, color: bool)
    ensures
        stands_in(text, crate::cli::terminal::in_bold(text, code, color)),
{
    let none = Seq::<char>::empty();
    let r = crate::cli::terminal::in_bold(text, code, color);
    if color {
        let head = "\x1b[1;"@ + crate::text::decimal(code as nat) + "m"@;
        assert(r =~= (head + text) + "\x1b[0m"@);
    } else {
        assert(r =~= (none + text) + none);
    }
}

proof fn lemma_paint(text: Seq<char>, code: u8, color: bool)
    ensures
        stands_in(text, in_color(text, code, color)),
{
    let none = Seq::<char>::empty();
    let r = in_color(text, code, color);
    if color {
        let head = "\x1b["@ + crate::text::decimal(code as nat) + "m"@;
        assert(r =~= (head + text) + "\x1b[0m"@);
    } else {
        assert(r =~= (none + text) + none);
    }
}

/// A message keeps its key and every value that it is given, in order.
pub proof fn law_messages(
    key: &'static str,
    name: &'static str,
    value: &str,
    name2: &'static str,
    value2: &str,
    bare: Notice,
    one: Notice,
    two: Notice,
)
    requires
        call_ensures(Notice::new, (key,), bare),
        call_ensures(Notice::with, (key, name, value), one),
        call_ensures(Notice::and, (one, name2, value2), two),
    ensures
        bare.key@ == key@ && bare.args@.len() == 0,
        one.key@ == key@ && one.args@.len() == 1,
        two.key@ == key@ && two.args@.len() == 2,
        two.args@[0].0@ == name@ && two.args@[0].1@ == value@,
        two.args@[1].0@ == name2@ && two.args@[1].1@ == value2@,
{
    assert(bare@.key == bare.key@ && one@.key == one.key@ && two@.key == two.key@);
    assert(bare@.args.len() == bare.args@.len());
    assert(one@.args.len() == one.args@.len());
    assert(two@.args.len() == two.args@.len());
    assert(two@.args[0] == (two.args@[0].0@, two.args@[0].1@));
    assert(two@.args[1] == (two.args@[1].0@, two.args@[1].1@));
}

/// A plain message is its text.
pub proof fn law_plain_messages(text: &str, n: Notice, r: String)
    requires
        call_ensures(Notice::plain, (text,), n),
        call_ensures(Notice::text, (&n,), r),
    ensures
        r@ == text@,
{
    reveal_strlit("plain");
    reveal_strlit("text");
    let args = n@.args;
    assert(args == seq![("text"@, text@)]);
    assert(value_named(args, "text"@) == Some(text@));
    let s = crate::cli::notice::wording("plain"@);
    assert(s == "%{text}"@);
    reveal_strlit("%{text}");
    assert(s.len() == 7);
    crate::text::lemma_find_is(s, '}', 2, 6);
    assert(s.subrange(2, 6) =~= "text"@);
    assert(s.skip(7).len() == 0);
    assert(crate::cli::notice::expanded(s.skip(7), args) =~= Seq::<char>::empty());
    assert(r@ =~= text@);
}

proof fn lemma_expanded_after(a: Seq<char>, rest: Seq<char>, args: Seq<(Seq<char>, Seq<char>)>)
    requires
        !a.contains('%'),
    ensures
        expanded(a + rest, args) == a + expanded(rest, args),
    decreases a.len(),
{
    let s = a + rest;
    if a.len() == 0 {
        assert(s =~= rest);
        assert(a + expanded(rest, args) =~= expanded(rest, args));
    } else {
        assert(s[0] == a[0]);
        assert(a[0] != '%') by {
            if a[0] == '%' {
                assert(a.contains('%'));
            }
        }
        let b = a.drop_first();
        assert(!b.contains('%')) by {
            if b.contains('%') {
                let i = choose|i: int| 0 <= i < b.len() && b[i] == '%';
                assert(a[i + 1] == '%');
            }
        }
        assert(s.drop_first() =~= b + rest);
        lemma_expanded_after(b, rest, args);
        assert(expanded(s, args) =~= a + expanded(rest, args));
    }
}

proof fn lemma_value_first(args: Seq<(Seq<char>, Seq<char>)>, i: int)
    requires
        0 <= i < args.len(),
        forall|k: int| 0 <= k < i ==> (#[trigger] args[k]).0 != args[i].0,
    ensures
        value_named(args, args[i].0) == Some(args[i].1),
    decreases i,
{
    if i > 0 {
        assert(args[0].0 != args[i].0);
        let rest = args.drop_first();
        assert(rest[i - 1] == args[i]);
        assert forall|k: int| 0 <= k < i - 1 implies (#[trigger] rest[k]).0 != rest[i - 1].0 by {
            assert(rest[k] == args[k + 1]);
        }
        lemma_value_first(rest, i - 1);
    }
}

/// A message without a gap is its wording; the first gap of a wording is filled
/// with the value of its name.
pub proof fn law_values_are_filled_in(
    n: &Notice,
    wording: &'static str,
    a: Seq<char>,
    name: Seq<char>,
    b: Seq<char>,
    i: int,
    r: String,
)
    requires
        call_ensures(english, (n.key,), wording),
        call_ensures(Notice::text, (n,), r),
        !a.contains('%'),
    ensures
        wording@ == a ==> r@ == a,
        wording@ == a + seq!['%', '{'] + name + seq!['}'] + b && !name.contains('}') && 0 <= i
            < n.args@.len() && n.args@[i].0@ == name && (forall|k: int|
            0 <= k < i ==> (#[trigger] n.args@[k]).0@ != name) ==> (a + n.args@[i].1@).is_prefix_of(
            r@,
        ),
{
    let args = n@.args;
    assert(args.len() == n.args@.len());
    let none = Seq::<char>::empty();
    if wording@ == a {
        assert(a + none =~= a);
        lemma_expanded_after(a, none, args);
        assert(expanded(none, args) =~= none);
        assert(r@ =~= a);
    }
    if wording@ == a + seq!['%', '{'] + name + seq!['}'] + b && !name.contains('}') && 0 <= i
        < n.args@.len() && n.args@[i].0@ == name && (forall|k: int|
        0 <= k < i ==> (#[trigger] n.args@[k]).0@ != name) {
        let gap = seq!['%', '{'] + name + seq!['}'] + b;
        assert(wording@ =~= a + gap);
        lemma_expanded_after(a, gap, args);
        let end = 2 + name.len() as int;
        assert forall|k: int| 2 <= k < end implies gap[k] != '}' by {
            if gap[k] == '}' {
                assert(name[k - 2] == '}');
                assert(name.contains('}'));
            }
        }
        assert(gap[end] == '}');
        lemma_find_is(gap, '}', 2, end);
        assert(gap[0] == '%' && gap[1] == '{');
        assert(gap.subrange(2, end) =~= name);
        assert(args[i] == (n.args@[i].0@, n.args@[i].1@));
        assert forall|k: int| 0 <= k < i implies (#[trigger] args[k]).0 != args[i].0 by {
            assert(args[k] == (n.args@[k].0@, n.args@[k].1@));
            assert(n.args@[k].0@ != name);
        }
        lemma_value_first(args, i);
        let value = n.args@[i].1@;
        assert(expanded(gap, args) == value + expanded(gap.skip(end + 1), args));
        let head = a + value;
        assert(r@ =~= head + expanded(gap.skip(end + 1), args));
        assert(r@.take(head.len() as int) =~= head);
    }
}

} // verus!
