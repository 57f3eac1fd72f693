//! Character-level helpers shared by the configuration loader and the error
//! formatter.
use vstd::prelude::*;

verus! {

/// `c` is an ASCII decimal digit.
pub open spec fn is_decimal_digit(c: char) -> bool {
    48 <= (c as u32) && (c as u32) <= 57
}

/// Every character of `s` is an ASCII decimal digit.
pub open spec fn all_decimal_digits(s: Seq<char>) -> bool {
    forall|i: int| 0 <= i < s.len() ==> #[trigger] is_decimal_digit(s[i])
}

/// The number written by the decimal digits `s` (most significant first).
pub open spec fn decimal_value(s: Seq<char>) -> nat
    decreases s.len(),
{
    if s.len() == 0 {
        0
    } else {
        decimal_value(s.drop_last()) * 10 + ((s.last() as u32) - 48) as nat
    }
}

/// The TCP port written by `s`: one or more ASCII decimal digits (leading
/// zeros allowed) whose value fits in 16 bits; `None` for anything else.
pub open spec fn port_value(s: Seq<char>) -> Option<u16> {
    if s.len() > 0 && all_decimal_digits(s) && decimal_value(s) <= 65535 {
        Some(decimal_value(s) as u16)
    } else {
        None
    }
}

proof fn lemma_decimal_prefix_monotone(s: Seq<char>, i: int, j: int)
    requires
        all_decimal_digits(s),
        0 <= i <= j <= s.len(),
    ensures
        decimal_value(s.take(i)) <= decimal_value(s.take(j)),
    decreases j - i,
{
    if i < j {
        lemma_decimal_prefix_monotone(s, i, j - 1);
        assert(s.take(j).drop_last() =~= s.take(j - 1));
        assert(is_decimal_digit(s[j - 1]));
    }
}

/// Appending a digit multiplies the value by ten and adds the digit.
pub proof fn lemma_decimal_append(s: Seq<char>, d: char)
    requires
        is_decimal_digit(d),
    ensures
        decimal_value(s.push(d)) == decimal_value(s) * 10 + ((d as u32) - 48) as nat,
{
    assert(s.push(d).drop_last() =~= s);
}

/// The value of the first `k + 1` digits is ten times that of the first `k`
/// plus digit `k`.
pub proof fn lemma_decimal_prefix_step(s: Seq<char>, k: int)
    requires
        0 <= k < s.len(),
    ensures
        decimal_value(s.take(k + 1)) == decimal_value(s.take(k)) * 10 + ((s[k] as u32) - 48) as nat,
{
    assert(s.take(k + 1).drop_last() =~= s.take(k));
}

/// A leading zero changes no value: `0` followed by digits reads as the
/// digits alone.
pub proof fn lemma_decimal_leading_zero(s: Seq<char>)
    ensures
        decimal_value(seq!['0'] + s) == decimal_value(s),
    decreases s.len(),
{
    if s.len() > 0 {
        lemma_decimal_leading_zero(s.drop_last());
        assert((seq!['0'] + s).drop_last() =~= seq!['0'] + s.drop_last());
        assert((seq!['0'] + s).last() == s.last());
    } else {
        assert(seq!['0'] + s =~= seq!['0']);
        assert(seq!['0'].drop_last() =~= Seq::<char>::empty());
        assert(('0' as u32) == 48);
        assert(decimal_value(seq!['0']) == decimal_value(Seq::<char>::empty()) * 10 + ((
        '0' as u32) - 48) as nat);
    }
}

/// A port written with a leading zero is the same port, and the text is
/// accepted exactly when the text without it is.
pub proof fn lemma_port_leading_zero(s: Seq<char>)
    requires
        s.len() > 0,
    ensures
        port_value(seq!['0'] + s) == port_value(s),
{
    lemma_decimal_leading_zero(s);
    let t = seq!['0'] + s;
    assert(is_decimal_digit('0'));
    if all_decimal_digits(s) {
        assert forall|i: int| 0 <= i < t.len() implies #[trigger] is_decimal_digit(t[i]) by {
            if i > 0 {
                assert(t[i] == s[i - 1]);
            }
        }
    }
    if all_decimal_digits(t) {
        assert forall|i: int| 0 <= i < s.len() implies #[trigger] is_decimal_digit(s[i]) by {
            assert(t[i + 1] == s[i]);
        }
    }
}

/// A text that holds a character other than an ASCII digit is no port.
pub proof fn lemma_port_rejects_non_digit(s: Seq<char>, i: int)
    requires
        0 <= i < s.len(),
        !is_decimal_digit(s[i]),
    ensures
        port_value(s) is None,
{
}

/// The empty text is no port.
pub proof fn lemma_port_rejects_empty()
    ensures
        port_value(Seq::<char>::empty()) is None,
{
}

/// A port read from a text is what its digits write, and every value up to
/// 65535 written in digits is read back as itself.
pub proof fn lemma_port_reads_its_digits(s: Seq<char>)
    requires
        s.len() > 0,
        all_decimal_digits(s),
    ensures
        decimal_value(s) <= 65535 ==> port_value(s) == Some(decimal_value(s) as u16),
        decimal_value(s) > 65535 ==> port_value(s) is None,
{
}

/// The text `13061` reads as port 13061.
pub proof fn lemma_port_13061()
    ensures
        port_value("13061"@) == Some(13061u16),
{
    reveal_strlit("13061");
    let s = "13061"@;
    assert(s =~= seq!['1', '3', '0', '6', '1']);
    lemma_five_digits(s);
}

/// The text `13060` reads as port 13060.
pub proof fn lemma_port_13060()
    ensures
        port_value("13060"@) == Some(13060u16),
{
    reveal_strlit("13060");
    let s = "13060"@;
    assert(s =~= seq!['1', '3', '0', '6', '0']);
    lemma_five_digits(s);
}

proof fn lemma_five_digits(s: Seq<char>)
    requires
        s.len() == 5,
        all_decimal_digits(s),
    ensures
        decimal_value(s) == ((s[0] as u32) - 48) as nat * 10000 + ((s[1] as u32) - 48) as nat * 1000
            + ((s[2] as u32) - 48) as nat * 100 + ((s[3] as u32) - 48) as nat * 10 + ((s[4] as u32)
            - 48) as nat,
{
    assert(s.take(0) =~= Seq::<char>::empty());
    lemma_decimal_prefix_step(s, 0);
    lemma_decimal_prefix_step(s, 1);
    lemma_decimal_prefix_step(s, 2);
    lemma_decimal_prefix_step(s, 3);
    lemma_decimal_prefix_step(s, 4);
    assert(s.take(5) =~= s);
    assert(is_decimal_digit(s[0]));
    assert(is_decimal_digit(s[1]));
    assert(is_decimal_digit(s[2]));
    assert(is_decimal_digit(s[3]));
    assert(is_decimal_digit(s[4]));
}

/// Reads the port number written by `s`, as the text after `[::]:` in a
/// socket address.
pub fn parse_port(s: &str) -> (r: Option<u16>)
    ensures
        r == port_value(s@),
{
    let n = s.unicode_len();
    if n == 0 {
        return None;
    }
    let mut acc: u32 = 0;
    let mut i: usize = 0;
    while i < n
        invariant
            n == s@.len(),
            i <= n,
            acc == decimal_value(s@.take(i as int)),
            acc <= 65535,
            all_decimal_digits(s@.take(i as int)),
        decreases n - i,
    {
        let c = s.get_char(i);
        let code: u32 = c as u32;
        if code < 48 || code > 57 {
            assert(!is_decimal_digit(s@[i as int]));
            return None;
        }
        proof {
            assert(s@.take(i + 1).drop_last() =~= s@.take(i as int));
            assert(s@.take(i + 1).last() == c);
            assert forall|k: int| 0 <= k < i + 1 implies #[trigger] is_decimal_digit(
                s@.take(i + 1)[k],
            ) by {
                if k < i {
                    assert(s@.take(i + 1)[k] == s@.take(i as int)[k]);
                }
            }
        }
        acc = acc * 10 + (code - 48);
        i = i + 1;
        if acc > 65535 {
            proof {
                if all_decimal_digits(s@) {
                    lemma_decimal_prefix_monotone(s@, i as int, n as int);
                    assert(s@.take(n as int) =~= s@);
                }
            }
            return None;
        }
    }
    assert(s@.take(n as int) =~= s@);
    Some(acc as u16)
}

/// `s` with four spaces written before the first character of every line,
/// where `at_line_start` says whether the first character of `s` begins a
/// line. This is how a pretty-printed (`{:#?}`) field is indented inside the
/// value that holds it.
pub open spec fn indent_lines(s: Seq<char>, at_line_start: bool) -> Seq<char>
    decreases s.len(),
{
    if s.len() == 0 {
        Seq::empty()
    } else {
        (if at_line_start {
            "    "@
        } else {
            Seq::empty()
        }) + seq![s[0]] + indent_lines(s.drop_first(), s[0] == '\n')
    }
}

/// Whether the character after `s` begins a line, given whether the first
/// character of `s` does.
pub open spec fn ends_at_line_start(s: Seq<char>, at_line_start: bool) -> bool {
    if s.len() == 0 {
        at_line_start
    } else {
        s.last() == '\n'
    }
}

/// Indenting two texts one after the other is indenting their
/// concatenation.
pub proof fn lemma_indent_concat(a: Seq<char>, b: Seq<char>, at_line_start: bool)
    ensures
        indent_lines(a + b, at_line_start) == indent_lines(a, at_line_start) + indent_lines(
            b,
            ends_at_line_start(a, at_line_start),
        ),
    decreases a.len(),
{
    if a.len() == 0 {
        assert(a + b =~= b);
        assert(indent_lines(a, at_line_start) =~= Seq::<char>::empty());
        assert(Seq::<char>::empty() + indent_lines(b, at_line_start) =~= indent_lines(
            b,
            at_line_start,
        ));
    } else {
        let rest = a.drop_first();
        lemma_indent_concat(rest, b, a[0] == '\n');
        assert((a + b).drop_first() =~= rest + b);
        assert((a + b)[0] == a[0]);
        if rest.len() > 0 {
            assert(rest.last() == a.last());
        }
        let head = (if at_line_start {
            "    "@
        } else {
            Seq::<char>::empty()
        }) + seq![a[0]];
        assert(indent_lines(a + b, at_line_start) == head + indent_lines(rest + b, a[0] == '\n'));
        assert(indent_lines(a, at_line_start) == head + indent_lines(rest, a[0] == '\n'));
        assert(head + (indent_lines(rest, a[0] == '\n') + indent_lines(
            b,
            ends_at_line_start(rest, a[0] == '\n'),
        )) =~= (head + indent_lines(rest, a[0] == '\n')) + indent_lines(
            b,
            ends_at_line_start(rest, a[0] == '\n'),
        ));
    }
}

/// A text without a line break is written unchanged, after four spaces when
/// it starts a line.
pub proof fn lemma_indent_single_line(s: Seq<char>, at_line_start: bool)
    requires
        s.len() > 0,
        forall|i: int| 0 <= i < s.len() ==> s[i] != '\n',
    ensures
        indent_lines(s, at_line_start) == (if at_line_start {
            seq![' ', ' ', ' ', ' ']
        } else {
            Seq::<char>::empty()
        }) + s,
    decreases s.len(),
{
    reveal_strlit("    ");
    assert("    "@ =~= seq![' ', ' ', ' ', ' ']);
    let rest = s.drop_first();
    if rest.len() == 0 {
        assert(indent_lines(rest, false) =~= Seq::<char>::empty());
        assert(s =~= seq![s[0]]);
    } else {
        lemma_indent_single_line(rest, false);
        assert(seq![s[0]] + rest =~= s);
    }
    let pre = if at_line_start {
        seq![' ', ' ', ' ', ' ']
    } else {
        Seq::<char>::empty()
    };
    assert(pre + seq![s[0]] + rest =~= pre + s);
}

/// A line break followed by more text puts four spaces before that text.
pub proof fn lemma_indent_after_newline(s: Seq<char>, at_line_start: bool)
    requires
        s.len() >= 2,
        s[0] == '\n',
    ensures
        indent_lines(s, at_line_start).take(
            (if at_line_start {
                4int
            } else {
                0int
            }) + 5,
        ) == (if at_line_start {
            seq![' ', ' ', ' ', ' ']
        } else {
            Seq::<char>::empty()
        }) + seq!['\n', ' ', ' ', ' ', ' '],
{
    reveal_strlit("    ");
    assert("    "@ =~= seq![' ', ' ', ' ', ' ']);
    let rest = s.drop_first();
    let tail = rest.drop_first();
    assert(indent_lines(rest, true) == seq![' ', ' ', ' ', ' '] + seq![rest[0]] + indent_lines(
        tail,
        rest[0] == '\n',
    ));
    let pre = if at_line_start {
        seq![' ', ' ', ' ', ' ']
    } else {
        Seq::<char>::empty()
    };
    let whole = pre + seq!['\n'] + indent_lines(rest, true);
    assert(indent_lines(s, at_line_start) == whole);
    assert(whole.take(pre.len() + 5int) =~= pre + seq!['\n', ' ', ' ', ' ', ' ']);
}

/// Indents every line of `s` by four spaces, `s` starting on a new line.
pub fn indent(s: &str) -> (r: String)
    ensures
        r@ == indent_lines(s@, true),
{
    let n = s.unicode_len();
    let mut out = String::new();
    let mut at_start = true;
    let mut i: usize = 0;
    assert(s@.skip(0) =~= s@);
    while i < n
        invariant
            n == s@.len(),
            i <= n,
            out@ + indent_lines(s@.skip(i as int), at_start) == indent_lines(s@, true),
        decreases n - i,
    {
        let c = s.get_char(i);
        let ghost before = out@;
        if at_start {
            out.append("    ");
        }
        let piece = s.substring_char(i, i + 1);
        out.append(piece);
        proof {
            assert(piece@ =~= seq![c]);
            assert(s@.skip(i as int).drop_first() =~= s@.skip(i + 1));
            assert(s@.skip(i as int)[0] == c);
            assert(out@ =~= before + (if at_start {
                "    "@
            } else {
                Seq::empty()
            }) + seq![c]);
        }
        at_start = c == '\n';
        i = i + 1;
    }
    assert(s@.skip(n as int) =~= Seq::<char>::empty());
    assert(out@ =~= out@ + indent_lines(s@.skip(n as int), at_start));
    out
}

/// The pretty (`{:#?}`) debug text of a one-field tuple value named `name`
/// whose field prints as `field_debug`.
pub open spec fn tuple_debug_text(name: Seq<char>, field_debug: Seq<char>) -> Seq<char> {
    name + "(\n"@ + indent_lines(field_debug + ",\n"@, true) + ")"@
}

/// Writes the pretty debug text of a one-field tuple value.
pub fn tuple_debug(name: &str, field_debug: &str) -> (r: String)
    ensures
        r@ == tuple_debug_text(name@, field_debug@),
{
    let mut field = field_debug.to_owned();
    field.append(",\n");
    let body = indent(field.as_str());
    let mut out = name.to_owned();
    out.append("(\n");
    out.append(body.as_str());
    out.append(")");
    out
}

} // verus!
