//! Colors and tables on a terminal.

use crate::text::{cat3, cat5, chars_of, decimal, decimal_of, digit_char, is_digit, join, join_texts, str_eq};
use vstd::prelude::*;
use vstd::string::*;

verus! {

/// The color of headings and of what matters less.
pub const MUTED: u8 = 90;

/// The color of what stands out.
pub const ACCENT: u8 = 33;

/// The color of success.
pub const SUCCESS: u8 = 32;

/// The color of warnings.
pub const WARN: u8 = 33;

/// The color of errors.
pub const ERROR: u8 = 31;

/// The color of information.
pub const INFO: u8 = 36;

/// True when output may be colored: `NO_COLOR` is not set, and the terminal is
/// not a dumb one.
pub fn is_color_enabled(no_color_set: bool, term: Option<&str>) -> (r: bool)
    ensures
        r == (!no_color_set && !(term is Some && term->0@ == "dumb"@)),
{
    if no_color_set {
        return false;
    }
    match term {
        Some(term) => !str_eq(term, "dumb"),
        None => true,
    }
}

/// The text in a color, where colors are on.
pub open spec fn in_color(text: Seq<char>, code: u8, color: bool) -> Seq<char> {
    if color {
        "\x1b["@ + decimal(code as nat) + "m"@ + text + "\x1b[0m"@
    } else {
        text
    }
}

/// The text in a color, where colors are on.
pub fn colored(text: &str, color_code: u8, color: bool) -> (r: String)
    ensures
        r@ == in_color(text@, color_code, color),
{
    if !color {
        return text.to_owned();
    }
    cat5("\x1b[", decimal_of(color_code as u64).as_str(), "m", text, "\x1b[0m")
}

/// The text in bold and in a color, where colors are on.
pub open spec fn in_bold(text: Seq<char>, code: u8, color: bool) -> Seq<char> {
    if color {
        "\x1b[1;"@ + decimal(code as nat) + "m"@ + text + "\x1b[0m"@
    } else {
        text
    }
}

/// The text in bold and in a color, where colors are on.
pub fn bold_colored(text: &str, color_code: u8, color: bool) -> (r: String)
    ensures
        r@ == in_bold(text@, color_code, color),
{
    if !color {
        return text.to_owned();
    }
    cat5("\x1b[1;", decimal_of(color_code as u64).as_str(), "m", text, "\x1b[0m")
}

/// True of the letters `a` to `z`, in either case.
pub open spec fn is_letter(c: char) -> bool {
    'a' <= c <= 'z' || 'A' <= c <= 'Z'
}

/// Whether an escape sequence is open after `s`, given whether one was before.
pub open spec fn escape_after(s: Seq<char>, open: bool) -> bool
    decreases s.len(),
{
    if s.len() == 0 {
        open
    } else if s[0] == '\x1b' {
        escape_after(s.drop_first(), true)
    } else if open {
        escape_after(s.drop_first(), !is_letter(s[0]))
    } else {
        escape_after(s.drop_first(), false)
    }
}

/// What is visible of `s`, given whether an escape sequence is open. A sequence
/// goes from the escape character to the next letter.
pub open spec fn visible(s: Seq<char>, open: bool) -> Seq<char>
    decreases s.len(),
{
    if s.len() == 0 {
        Seq::empty()
    } else if s[0] == '\x1b' {
        visible(s.drop_first(), true)
    } else if open {
        visible(s.drop_first(), !is_letter(s[0]))
    } else {
        seq![s[0]] + visible(s.drop_first(), false)
    }
}

/// What is visible of a text.
pub fn strip_ansi(text: &str) -> (r: String)
    ensures
        r@ == visible(text@, false),
{
    let v = chars_of(text);
    let mut out = String::new();
    let mut open = false;
    let mut i: usize = 0;
    assert(v@.skip(0) =~= v@);
    assert(out@ + visible(v@, false) =~= visible(v@, false));
    while i < v.len()
        invariant
            v@ == text@,
            i <= v@.len(),
            out@ + visible(v@.skip(i as int), open) == visible(text@, false),
        decreases v@.len() - i,
    {
        let c = v[i];
        let ghost rest = v@.skip(i as int);
        let ghost before = out@;
        proof {
            assert(rest[0] == c);
            assert(rest.drop_first() =~= v@.skip(i + 1));
        }
        if c == '\x1b' {
            open = true;
        } else if open {
            if ('a' <= c && c <= 'z') || ('A' <= c && c <= 'Z') {
                open = false;
            }
        } else {
            out.push(c);
            assert(out@ + visible(v@.skip(i + 1), false) =~= before + visible(rest, false));
        }
        i = i + 1;
    }
    assert(out@ + visible(v@.skip(i as int), open) =~= out@);
    out
}

/// The number of visible characters.
pub open spec fn width(s: Seq<char>) -> nat {
    visible(s, false).len()
}

/// The number of visible characters of a text.
pub fn visible_width(text: &str) -> (r: usize)
    ensures
        r == width(text@),
{
    strip_ansi(text).as_str().unicode_len()
}

/// What is visible of two texts in a row.
pub proof fn lemma_visible_add(a: Seq<char>, b: Seq<char>, open: bool)
    ensures
        visible(a + b, open) == visible(a, open) + visible(b, escape_after(a, open)),
        escape_after(a + b, open) == escape_after(b, escape_after(a, open)),
    decreases a.len(),
{
    if a.len() == 0 {
        assert(a + b =~= b);
        assert(visible(a, open) + visible(b, open) =~= visible(b, open));
    } else {
        let rest = a.drop_first();
        assert((a + b).drop_first() =~= rest + b);
        assert((a + b)[0] == a[0]);
        let next = if a[0] == '\x1b' {
            true
        } else if open {
            !is_letter(a[0])
        } else {
            false
        };
        lemma_visible_add(rest, b, next);
        assert(visible(a + b, open) =~= visible(a, open) + visible(b, escape_after(a, open)));
    }
}

/// A row of digits is not visible in an open escape sequence, and leaves it
/// open.
proof fn lemma_digits_hidden(s: Seq<char>)
    requires
        forall|i: int| 0 <= i < s.len() ==> is_digit(#[trigger] s[i]),
    ensures
        visible(s, true) == Seq::<char>::empty(),
        escape_after(s, true),
    decreases s.len(),
{
    if s.len() > 0 {
        let rest = s.drop_first();
        assert(is_digit(s[0]));
        assert forall|i: int| 0 <= i < rest.len() implies is_digit(#[trigger] rest[i]) by {
            assert(rest[i] == s[i + 1]);
        }
        lemma_digits_hidden(rest);
    }
}

proof fn lemma_decimal_digits(n: nat)
    ensures
        forall|i: int| 0 <= i < decimal(n).len() ==> is_digit(#[trigger] decimal(n)[i]),
    decreases n,
{
    let d = if n < 10 {
        n
    } else {
        n % 10
    };
    assert(is_digit(digit_char(d)));
    if n >= 10 {
        lemma_decimal_digits(n / 10);
        let head = decimal(n / 10);
        assert forall|i: int| 0 <= i < decimal(n).len() implies is_digit(
            #[trigger] decimal(n)[i],
        ) by {
            if i < head.len() {
                assert(decimal(n)[i] == head[i]);
            }
        }
    }
}

proof fn lemma_escape_tail()
    ensures
        forall|open: bool| #[trigger] visible("\x1b[0m"@, open) == Seq::<char>::empty(),
        forall|open: bool| !#[trigger] escape_after("\x1b[0m"@, open),
{
    reveal_strlit("\x1b[0m");
    let s = "\x1b[0m"@;
    assert(s.len() == 4);
    let s1 = s.drop_first();
    let s2 = s1.drop_first();
    let s3 = s2.drop_first();
    let s4 = s3.drop_first();
    assert(s4.len() == 0);
    assert(s[0] == '\x1b' && s1[0] == '[' && s2[0] == '0' && s3[0] == 'm');
    assert(visible(s3, true) == visible(s4, false));
    assert(visible(s2, true) == visible(s3, true));
    assert(visible(s1, true) == visible(s2, true));
    assert(escape_after(s3, true) == escape_after(s4, false));
    assert(escape_after(s2, true) == escape_after(s3, true));
    assert(escape_after(s1, true) == escape_after(s2, true));
}

proof fn lemma_escape_head(head: Seq<char>, code: u8)
    requires
        head == "\x1b["@ || head == "\x1b[1;"@,
    ensures
        visible(head + decimal(code as nat) + "m"@, false) == Seq::<char>::empty(),
        !escape_after(head + decimal(code as nat) + "m"@, false),
{
    reveal_strlit("\x1b[");
    reveal_strlit("\x1b[1;");
    reveal_strlit("m");
    let digits = decimal(code as nat);
    lemma_decimal_digits(code as nat);
    lemma_digits_hidden(digits);
    lemma_visible_add(head + digits, "m"@, false);
    lemma_visible_add(head, digits, false);
    let h1 = head.drop_first();
    let h2 = h1.drop_first();
    assert(head[0] == '\x1b' && h1[0] == '[');
    assert(visible(head, false) == visible(h1, true));
    assert(visible(h1, true) == visible(h2, true));
    assert(escape_after(head, false) == escape_after(h1, true));
    assert(escape_after(h1, true) == escape_after(h2, true));
    if head == "\x1b[1;"@ {
        let h3 = h2.drop_first();
        let h4 = h3.drop_first();
        assert(h4.len() == 0);
        assert(h2[0] == '1' && h3[0] == ';');
        assert(visible(h2, true) == visible(h3, true));
        assert(visible(h3, true) == visible(h4, true));
        assert(escape_after(h2, true) == escape_after(h3, true));
        assert(escape_after(h3, true) == escape_after(h4, true));
    } else {
        assert(h2.len() == 0);
    }
    let m = "m"@;
    assert(m.drop_first().len() == 0);
    assert(m[0] == 'm');
    assert(visible(m, true) == visible(m.drop_first(), false));
    assert(escape_after(m, true) == escape_after(m.drop_first(), false));
    assert(visible(head + digits + m, false) =~= Seq::<char>::empty());
}

/// Coloring a text changes nothing of what is visible of it.
pub proof fn law_color_is_invisible(text: Seq<char>, code: u8, color: bool)
    ensures
        visible(in_color(text, code, color), false) == visible(text, false),
        visible(in_bold(text, code, color), false) == visible(text, false),
        color ==> !escape_after(in_color(text, code, color), false),
        color ==> !escape_after(in_bold(text, code, color), false),
{
    if color {
        lemma_escape_tail();
        lemma_escape_head("\x1b["@, code);
        lemma_escape_head("\x1b[1;"@, code);
        let plain = "\x1b["@ + decimal(code as nat) + "m"@;
        let bold = "\x1b[1;"@ + decimal(code as nat) + "m"@;
        let tail = "\x1b[0m"@;
        lemma_visible_add(plain + text, tail, false);
        lemma_visible_add(plain, text, false);
        lemma_visible_add(bold + text, tail, false);
        lemma_visible_add(bold, text, false);
        assert(visible(in_color(text, code, color), false) =~= visible(text, false));
        assert(visible(in_bold(text, code, color), false) =~= visible(text, false));
    }
}

/// The badge of a severity.
pub open spec fn badge(severity: Seq<char>, color: bool) -> Seq<char> {
    if severity == "CRIT"@ {
        in_bold("[CRIT]"@, ERROR, color)
    } else if severity == "HIGH"@ {
        in_bold("[HIGH]"@, WARN, color)
    } else if severity == " MED"@ || severity == "MED"@ {
        in_bold("[ MED]"@, INFO, color)
    } else if severity == " LOW"@ || severity == "LOW"@ {
        in_bold("[ LOW]"@, 37, color)
    } else if severity == "INFO"@ {
        in_bold("[INFO]"@, MUTED, color)
    } else {
        "["@ + severity + "]"@
    }
}

/// The badge of a severity.
pub fn severity_badge(severity: &str, color: bool) -> (r: String)
    ensures
        r@ == badge(severity@, color),
{
    if str_eq(severity, "CRIT") {
        bold_colored("[CRIT]", ERROR, color)
    } else if str_eq(severity, "HIGH") {
        bold_colored("[HIGH]", WARN, color)
    } else if str_eq(severity, " MED") || str_eq(severity, "MED") {
        bold_colored("[ MED]", INFO, color)
    } else if str_eq(severity, " LOW") || str_eq(severity, "LOW") {
        bold_colored("[ LOW]", 37, color)
    } else if str_eq(severity, "INFO") {
        bold_colored("[INFO]", MUTED, color)
    } else {
        cat3("[", severity, "]")
    }
}

/// The badge of a diagnostic check.
pub open spec fn check_mark(prefix: Seq<char>, color: bool) -> Seq<char> {
    if prefix == "[PASS]"@ {
        in_color("[PASS]"@, SUCCESS, color)
    } else if prefix == "[WARN]"@ {
        in_color("[WARN]"@, WARN, color)
    } else if prefix == "[FAIL]"@ {
        in_bold("[FAIL]"@, ERROR, color)
    } else if prefix == "[INFO]"@ {
        in_color("[INFO]"@, MUTED, color)
    } else {
        prefix
    }
}

/// The badge of a diagnostic check.
pub fn check_badge(prefix: &str, color: bool) -> (r: String)
    ensures
        r@ == check_mark(prefix@, color),
{
    if str_eq(prefix, "[PASS]") {
        colored("[PASS]", SUCCESS, color)
    } else if str_eq(prefix, "[WARN]") {
        colored("[WARN]", WARN, color)
    } else if str_eq(prefix, "[FAIL]") {
        bold_colored("[FAIL]", ERROR, color)
    } else if str_eq(prefix, "[INFO]") {
        colored("[INFO]", MUTED, color)
    } else {
        prefix.to_owned()
    }
}

/// Where the text of a cell stands.
#[derive(Clone, Copy, Debug, PartialEq, Eq, Structural)]
pub enum Align {
    Left,
    Right,
}

/// A character, `n` times.
pub open spec fn repeated(c: char, n: nat) -> Seq<char> {
    Seq::new(n, |i: int| c)
}

fn repeat(c: char, n: usize) -> (r: String)
    ensures
        r@ == repeated(c, n as nat),
{
    let mut out = String::new();
    let mut i: usize = 0;
    while i < n
        invariant
            i <= n,
            out@ == repeated(c, i as nat),
        decreases n - i,
    {
        out.push(c);
        i = i + 1;
        assert(out@ =~= repeated(c, i as nat));
    }
    out
}

/// A cell, filled up with spaces to the target width.
pub open spec fn padded(text: Seq<char>, target: nat, align: Align) -> Seq<char> {
    if width(text) >= target {
        text
    } else {
        let spaces = repeated(' ', (target - width(text)) as nat);
        match align {
            Align::Left => text + spaces,
            Align::Right => spaces + text,
        }
    }
}

/// A cell, filled up with spaces to the target width. Escape sequences take no
/// width.
pub fn pad_cell(text: &str, target_width: usize, align: Align) -> (r: String)
    ensures
        r@ == padded(text@, target_width as nat, align),
{
    let vis: usize = visible_width(text);
    if vis >= target_width {
        return text.to_owned();
    }
    let spaces = repeat(' ', target_width - vis);
    match align {
        Align::Left => crate::text::cat2(text, spaces.as_str()),
        Align::Right => crate::text::cat2(spaces.as_str(), text),
    }
}

proof fn lemma_spaces_visible(n: nat)
    ensures
        visible(repeated(' ', n), false) == repeated(' ', n),
        !escape_after(repeated(' ', n), false),
    decreases n,
{
    let s = repeated(' ', n);
    if n > 0 {
        assert(s.drop_first() =~= repeated(' ', (n - 1) as nat));
        lemma_spaces_visible((n - 1) as nat);
        assert(visible(s, false) =~= s);
    } else {
        assert(s =~= Seq::<char>::empty());
    }
}

/// A cell that does not end within an escape sequence is as wide as the target
/// after padding, or as wide as it was where it is wider; and it still does not
/// end within an escape sequence.
pub proof fn law_padding_fills(text: Seq<char>, target: nat, align: Align)
    requires
        !escape_after(text, false),
    ensures
        width(padded(text, target, align)) == if width(text) >= target {
            width(text)
        } else {
            target
        },
        !escape_after(padded(text, target, align), false),
{
    if width(text) < target {
        let n = (target - width(text)) as nat;
        lemma_spaces_visible(n);
        lemma_visible_add(text, repeated(' ', n), false);
        lemma_visible_add(repeated(' ', n), text, false);
    }
}

/// The larger of two widths.
pub open spec fn wider(a: nat, b: nat) -> nat {
    if a >= b {
        a
    } else {
        b
    }
}

/// The text of a cell; empty where the row is too short.
pub open spec fn cell(row: Seq<String>, i: int) -> Seq<char> {
    if 0 <= i < row.len() {
        row[i]@
    } else {
        Seq::empty()
    }
}

/// The width of a column: that of its widest cell, or of its header.
pub open spec fn column_width(header: Seq<char>, rows: Seq<Vec<String>>, i: int) -> nat
    decreases rows.len(),
{
    if rows.len() == 0 {
        width(header)
    } else {
        wider(column_width(header, rows.drop_last(), i), width(cell(rows.last()@, i)))
    }
}

/// The widths of all columns.
pub open spec fn table_widths(columns: Seq<(&str, Align)>, rows: Seq<Vec<String>>) -> Seq<nat> {
    Seq::new(columns.len(), |i: int| column_width(columns[i].0@, rows, i))
}

/// The headers, padded.
pub open spec fn header_cells(columns: Seq<(&str, Align)>, widths: Seq<nat>) -> Seq<Seq<char>> {
    Seq::new(columns.len(), |i: int| padded(columns[i].0@, widths[i], columns[i].1))
}

/// The cells of a row, padded.
pub open spec fn row_cells(
    columns: Seq<(&str, Align)>,
    widths: Seq<nat>,
    row: Seq<String>,
) -> Seq<Seq<char>> {
    Seq::new(columns.len(), |i: int| padded(cell(row, i), widths[i], columns[i].1))
}

/// The rules under the headers.
pub open spec fn rule_cells(widths: Seq<nat>) -> Seq<Seq<char>> {
    Seq::new(widths.len(), |i: int| repeated('─', widths[i]))
}

/// The rows of a table, a line each.
pub open spec fn row_lines(
    columns: Seq<(&str, Align)>,
    widths: Seq<nat>,
    rows: Seq<Vec<String>>,
) -> Seq<char>
    decreases rows.len(),
{
    if rows.len() == 0 {
        Seq::empty()
    } else {
        row_lines(columns, widths, rows.drop_last()) + join(
            row_cells(columns, widths, rows.last()@),
            "  "@,
        ) + "\n"@
    }
}

/// A table: the headers, a rule, and the rows.
pub open spec fn table(
    columns: Seq<(&str, Align)>,
    rows: Seq<Vec<String>>,
    color: bool,
) -> Seq<char> {
    if columns.len() == 0 {
        Seq::empty()
    } else {
        let widths = table_widths(columns, rows);
        in_color(join(header_cells(columns, widths), "  "@), MUTED, color) + "\n"@ + in_color(
            join(rule_cells(widths), "──"@),
            MUTED,
            color,
        ) + "\n"@ + row_lines(columns, widths, rows)
    }
}

fn cell_text(row: &Vec<String>, i: usize) -> (r: &str)
    ensures
        r@ == cell(row@, i as int),
{
    if i < row.len() {
        row[i].as_str()
    } else {
        proof {
            reveal_strlit("");
            assert(""@ =~= Seq::<char>::empty());
        }
        ""
    }
}

fn find_column_width(header: &str, rows: &[Vec<String>], i: usize) -> (r: usize)
    ensures
        r == column_width(header@, rows@, i as int),
{
    let mut w: usize = visible_width(header);
    let mut k: usize = 0;
    while k < rows.len()
        invariant
            k <= rows@.len(),
            w == column_width(header@, rows@.take(k as int), i as int),
        decreases rows@.len() - k,
    {
        proof {
            let front = rows@.take(k + 1);
            assert(front.last() == rows@[k as int]);
            assert(front.drop_last() =~= rows@.take(k as int));
        }
        let row = &rows[k];
        let c: usize = visible_width(cell_text(row, i));
        if c > w {
            w = c;
        }
        k = k + 1;
    }
    assert(rows@.take(k as int) =~= rows@);
    w
}

fn make_row(columns: &[(&str, Align)], widths: &Vec<usize>, row: &Vec<String>) -> (r: String)
    requires
        widths@.len() == columns@.len(),
    ensures
        r@ == join(row_cells(columns@, widths@.map_values(|w: usize| w as nat), row@), "  "@),
{
    let mut cells: Vec<String> = Vec::new();
    let mut i: usize = 0;
    while i < columns.len()
        invariant
            i <= columns@.len(),
            widths@.len() == columns@.len(),
            cells@.len() == i,
            forall|k: int|
                0 <= k < i ==> (#[trigger] cells@[k])@ == padded(
                    cell(row@, k),
                    widths@[k] as nat,
                    columns@[k].1,
                ),
        decreases columns@.len() - i,
    {
        cells.push(pad_cell(cell_text(row, i), widths[i], columns[i].1));
        i = i + 1;
    }
    assert(cells.deep_view() =~= row_cells(
        columns@,
        widths@.map_values(|w: usize| w as nat),
        row@,
    ));
    join_texts(&cells, "  ")
}

/// A table with aligned columns, each as wide as its widest cell. Escape
/// sequences take no width.
pub fn render_table(columns: &[(&str, Align)], rows: &[Vec<String>], color: bool) -> (r: String)
    ensures
        r@ == table(columns@, rows@, color),
{
    if columns.len() == 0 {
        return String::new();
    }
    let mut widths: Vec<usize> = Vec::new();
    let mut headers: Vec<String> = Vec::new();
    let mut rules: Vec<String> = Vec::new();
    let mut i: usize = 0;
    while i < columns.len()
        invariant
            i <= columns@.len(),
            widths@.len() == i,
            headers@.len() == i,
            rules@.len() == i,
            forall|k: int|
                0 <= k < i ==> #[trigger] widths@[k] == column_width(columns@[k].0@, rows@, k),
            forall|k: int|
                0 <= k < i ==> (#[trigger] headers@[k])@ == padded(
                    columns@[k].0@,
                    widths@[k] as nat,
                    columns@[k].1,
                ),
            forall|k: int|
                0 <= k < i ==> (#[trigger] rules@[k])@ == repeated('─', widths@[k] as nat),
        decreases columns@.len() - i,
    {
        let w: usize = find_column_width(columns[i].0, rows, i);
        widths.push(w);
        headers.push(pad_cell(columns[i].0, w, columns[i].1));
        rules.push(repeat('─', w));
        i = i + 1;
    }
    let ghost spec_widths = table_widths(columns@, rows@);
    proof {
        assert(widths@.map_values(|w: usize| w as nat) =~= spec_widths);
        assert(headers.deep_view() =~= header_cells(columns@, spec_widths));
        assert(rules.deep_view() =~= rule_cells(spec_widths));
    }
    let header = colored(join_texts(&headers, "  ").as_str(), MUTED, color);
    let rule = colored(join_texts(&rules, "──").as_str(), MUTED, color);
    let head = cat3(cat3(header.as_str(), "\n", rule.as_str()).as_str(), "\n", "");
    proof {
        reveal_strlit("");
        assert(head@ =~= header@ + "\n"@ + rule@ + "\n"@);
    }
    let mut body = String::new();
    let mut k: usize = 0;
    while k < rows.len()
        invariant
            k <= rows@.len(),
            widths@.len() == columns@.len(),
            widths@.map_values(|w: usize| w as nat) == spec_widths,
            body@ == row_lines(columns@, spec_widths, rows@.take(k as int)),
        decreases rows@.len() - k,
    {
        proof {
            let front = rows@.take(k + 1);
            assert(front.last() == rows@[k as int]);
            assert(front.drop_last() =~= rows@.take(k as int));
        }
        let line = make_row(columns, &widths, &rows[k]);
        body = cat3(body.as_str(), line.as_str(), "\n");
        k = k + 1;
    }
    assert(rows@.take(k as int) =~= rows@);
    crate::text::cat2(head.as_str(), body.as_str())
}

/// The total of some widths.
pub open spec fn total(widths: Seq<nat>) -> nat
    decreases widths.len(),
{
    if widths.len() == 0 {
        0
    } else {
        total(widths.drop_last()) + widths.last()
    }
}

proof fn lemma_joined_width(cells: Seq<Seq<char>>, widths: Seq<nat>)
    requires
        cells.len() == widths.len() > 0,
        forall|i: int|
            0 <= i < cells.len() ==> width(#[trigger] cells[i]) == widths[i] && !escape_after(
                cells[i],
                false,
            ),
    ensures
        width(join(cells, "  "@)) == total(widths) + 2 * (cells.len() - 1),
        !escape_after(join(cells, "  "@), false),
    decreases cells.len(),
{
    if cells.len() == 1 {
        assert(width(cells[0]) == widths[0]);
        assert(total(widths.drop_last()) == 0);
    } else {
        reveal_strlit("  ");
        let front = cells.drop_last();
        assert forall|i: int| 0 <= i < front.len() implies width(#[trigger] front[i])
            == widths.drop_last()[i] && !escape_after(front[i], false) by {
            assert(front[i] == cells[i]);
        }
        lemma_joined_width(front, widths.drop_last());
        let head = join(front, "  "@);
        let last = cells[cells.len() - 1];
        assert(cells.last() == last);
        assert("  "@ =~= repeated(' ', 2));
        lemma_spaces_visible(2);
        lemma_visible_add(head, "  "@, false);
        lemma_visible_add(head + "  "@, last, false);
    }
}

proof fn lemma_column_width(header: Seq<char>, rows: Seq<Vec<String>>, i: int, k: int)
    requires
        0 <= k < rows.len(),
    ensures
        width(cell(rows[k]@, i)) <= column_width(header, rows, i),
    decreases rows.len(),
{
    if k < rows.len() - 1 {
        lemma_column_width(header, rows.drop_last(), i, k);
    }
}

/// All rows of a table are equally wide: as wide as the columns and the gaps
/// between them together, as long as no cell ends within an escape sequence.
pub proof fn law_rows_line_up(
    columns: Seq<(&str, Align)>,
    rows: Seq<Vec<String>>,
    k: int,
)
    requires
        columns.len() > 0,
        0 <= k < rows.len(),
        forall|i: int|
            0 <= i < columns.len() ==> !escape_after(#[trigger] cell(rows[k]@, i), false),
    ensures
        width(join(row_cells(columns, table_widths(columns, rows), rows[k]@), "  "@)) == total(
            table_widths(columns, rows),
        ) + 2 * (columns.len() - 1),
{
    let widths = table_widths(columns, rows);
    let cells = row_cells(columns, widths, rows[k]@);
    assert forall|i: int| 0 <= i < cells.len() implies width(#[trigger] cells[i]) == widths[i]
        && !escape_after(cells[i], false) by {
        lemma_column_width(columns[i].0@, rows, i, k);
        assert(!escape_after(cell(rows[k]@, i), false));
        law_padding_fills(cell(rows[k]@, i), widths[i], columns[i].1);
    }
    lemma_joined_width(cells, widths);
}

} // verus!
