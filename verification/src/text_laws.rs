//! What holds of the functions on text and on paths.

use vstd::prelude::*;

use crate::paths;
use crate::text;

verus! {

/// White space is what Unicode calls so: twenty-five characters, six of them in ASCII.
pub proof fn law_white_space(c: char)
    ensures
        text::is_white_space(c) <==> set![
            0x9u32, 0xa, 0xb, 0xc, 0xd, 0x20, 0x85, 0xa0, 0x1680, 0x2000, 0x2001, 0x2002, 0x2003,
            0x2004, 0x2005, 0x2006, 0x2007, 0x2008, 0x2009, 0x200a, 0x2028, 0x2029, 0x202f, 0x205f,
            0x3000,
        ].contains(c as u32),
{
}

/// White space around a text that has none at its ends is taken away, and nothing else.
pub proof fn law_trimmed_inside(a: Seq<char>, s: Seq<char>, b: Seq<char>)
    requires
        forall|i: int| 0 <= i < a.len() ==> text::is_white_space(#[trigger] a[i]),
        forall|i: int| 0 <= i < b.len() ==> text::is_white_space(#[trigger] b[i]),
        s.len() > 0 ==> !text::is_white_space(s[0]) && !text::is_white_space(s.last()),
    ensures
        text::trimmed(a + s + b) == s,
    decreases a.len() + b.len(),
{
    let all = a + s + b;
    if s.len() == 0 {
        assert forall|i: int| 0 <= i < all.len() implies text::is_white_space(#[trigger] all[i]) by {
            if i < a.len() {
                assert(all[i] == a[i]);
            } else {
                assert(all[i] == b[i - a.len()]);
            }
        }
        text::lemma_blank_is_trimmed_away(all);
        assert(text::trimmed(all) =~= s);
    } else if a.len() > 0 {
        assert(all[0] == a[0]);
        let rest = a.drop_first();
        assert(all.drop_first() =~= rest + s + b);
        assert forall|i: int| 0 <= i < rest.len() implies text::is_white_space(
            #[trigger] rest[i],
        ) by {
            assert(rest[i] == a[i + 1]);
        }
        law_trimmed_inside(rest, s, b);
    } else if b.len() > 0 {
        let rest = b.drop_last();
        assert(all[0] == s[0]);
        assert(all.last() == b.last());
        assert(all.drop_last() =~= a + s + rest);
        assert forall|i: int| 0 <= i < rest.len() implies text::is_white_space(
            #[trigger] rest[i],
        ) by {
            assert(rest[i] == b[i]);
        }
        law_trimmed_inside(a, s, rest);
        assert((a + s + rest)[0] == s[0]);
    } else {
        assert(all =~= s);
        text::lemma_trimmed_already(s);
    }
}

/// Replacing a character goes part by part: each occurrence becomes the replacement, and every
/// other character stays.
pub proof fn law_substituted(a: Seq<char>, b: Seq<char>, c: char, from: char, to: Seq<char>)
    ensures
        text::substituted(a + b, from, to) == text::substituted(a, from, to) + text::substituted(
            b,
            from,
            to,
        ),
        text::substituted(seq![from], from, to) == to,
        c != from ==> text::substituted(seq![c], from, to) == seq![c],
        text::substituted(Seq::empty(), from, to) == Seq::<char>::empty(),
    decreases b.len(),
{
    if b.len() == 0 {
        assert(a + b =~= a);
    } else {
        law_substituted(a, b.drop_last(), c, from, to);
        assert((a + b).drop_last() =~= a + b.drop_last());
        assert((a + b).last() == b.last());
    }
    assert(seq![from].drop_last() =~= Seq::<char>::empty());
    assert(seq![c].drop_last() =~= Seq::<char>::empty());
    assert(text::substituted(seq![from].drop_last(), from, to) =~= Seq::empty());
}

/// A text that holds no `c` comes before the `c` that follows it, and is all that comes before one
/// where none follows.
pub proof fn law_part_before(a: Seq<char>, b: Seq<char>, c: char)
    requires
        !a.contains(c),
    ensures
        text::part_before(a + seq![c] + b, c) == a,
        text::part_before(a, c) == a,
{
    let s = a + seq![c] + b;
    assert forall|i: int| 0 <= i < a.len() implies s[i] != c && a[i] != c by {
        assert(a.contains(a[i]));
    }
    text::lemma_position_unique(s, c, a.len() as int);
    text::lemma_position_unique(a, c, a.len() as int);
    assert(s.take(a.len() as int) =~= a);
    assert(a.take(a.len() as int) =~= a);
}

/// A text is cut at the first `c`: what comes before it holds no `c`, what comes behind it may hold
/// anything. A text without `c` is not cut.
pub proof fn law_cut_once(a: Seq<char>, b: Seq<char>, c: char)
    requires
        !a.contains(c),
    ensures
        text::cut_once(a + seq![c] + b, c) == Some((a, b)),
        text::cut_once(a, c) is None,
{
    let s = a + seq![c] + b;
    assert forall|i: int| 0 <= i < a.len() implies s[i] != c && a[i] != c by {
        assert(a.contains(a[i]));
    }
    text::lemma_position_unique(s, c, a.len() as int);
    text::lemma_position_unique(a, c, a.len() as int);
    assert(s.take(a.len() as int) =~= a);
    assert(s.skip(a.len() as int + 1) =~= b);
}

/// A line ends in a line feed, with or without a carriage return before it, and the lines behind
/// it follow. What has no ending is a line too, where there is anything of it.
pub proof fn law_lines(line: Seq<char>, rest: Seq<char>)
    requires
        !line.contains('\n'),
    ensures
        !(line.len() > 0 && line.last() == '\r') ==> text::lines_of(line + seq!['\n'] + rest)
            == seq![line] + text::lines_of(rest),
        text::lines_of(line + seq!['\r', '\n'] + rest) == seq![line] + text::lines_of(rest),
        line.len() > 0 ==> text::lines_of(line) == seq![line],
        text::lines_of(Seq::empty()) == Seq::<Seq<char>>::empty(),
{
    assert forall|i: int| 0 <= i < line.len() implies line[i] != '\n' by {
        assert(line.contains(line[i]));
    }
    let n = line.len() as int;
    let plain = line + seq!['\n'] + rest;
    text::lemma_position_unique(plain, '\n', n);
    assert(plain.take(n) =~= line);
    assert(plain.skip(n + 1) =~= rest);
    let full = line + seq!['\r', '\n'] + rest;
    text::lemma_position_unique(full, '\n', n + 1);
    assert(full.take(n + 1) =~= line.push('\r'));
    assert(line.push('\r').drop_last() =~= line);
    assert(full.skip(n + 2) =~= rest);
    text::lemma_position_unique(line, '\n', n);
}

/// Joined lines stand in their order, with one separator between each two.
pub proof fn law_joined_by(first: Seq<char>, lines: Seq<Seq<char>>, separator: Seq<char>)
    ensures
        text::joined_by(Seq::empty(), separator) == Seq::<char>::empty(),
        text::joined_by(seq![first], separator) == first,
        lines.len() > 0 ==> text::joined_by(seq![first] + lines, separator) == first + separator
            + text::joined_by(lines, separator),
    decreases lines.len(),
{
    if lines.len() > 0 {
        let all = seq![first] + lines;
        assert(all.drop_last() =~= seq![first] + lines.drop_last());
        assert(all.last() == lines.last());
        if lines.len() == 1 {
            assert(all.drop_last() =~= seq![first]);
            assert(text::joined_by(all.drop_last(), separator) == first);
        } else {
            law_joined_by(first, lines.drop_last(), separator);
            assert(text::joined_by(all, separator) =~= first + separator + text::joined_by(
                lines,
                separator,
            ));
        }
    }
}

/// Lines that are joined by line feeds are read back as they were, where none holds a line feed,
/// none ends in a carriage return, and the last is not empty.
pub proof fn law_joined_lines_come_back(lines: Seq<Seq<char>>)
    requires
        forall|i: int|
            0 <= i < lines.len() ==> !(#[trigger] lines[i]).contains('\n') && !(lines[i].len() > 0
                && lines[i].last() == '\r'),
        lines.len() > 0 ==> lines.last().len() > 0,
    ensures
        text::lines_of(text::joined_by(lines, seq!['\n'])) == lines,
    decreases lines.len(),
{
    if lines.len() == 1 {
        law_lines(lines[0], Seq::empty());
        assert(lines =~= seq![lines[0]]);
    } else if lines.len() > 1 {
        let rest = lines.drop_first();
        assert(lines =~= seq![lines[0]] + rest);
        assert forall|i: int| 0 <= i < rest.len() implies !(#[trigger] rest[i]).contains('\n') && !(
        rest[i].len() > 0 && rest[i].last() == '\r') by {
            assert(rest[i] == lines[i + 1]);
        }
        law_joined_lines_come_back(rest);
        law_joined_by(lines[0], rest, seq!['\n']);
        law_lines(lines[0], text::joined_by(rest, seq!['\n']));
    }
}

/// A number is written digit by digit: one below ten as its digit, and ten times a number and a
/// digit as that number and the digit behind it. A negative one has a minus sign before it.
pub proof fn law_decimal(n: nat, d: nat)
    requires
        d < 10,
    ensures
        ({
            let digit = seq!['0', '1', '2', '3', '4', '5', '6', '7', '8', '9'][d as int];
            &&& text::decimal(d) == seq![digit]
            &&& n > 0 ==> text::decimal(10 * n + d) == text::decimal(n).push(digit)
        }),
        text::decimal_int(n as int) == text::decimal(n),
        n > 0 ==> text::decimal_int(-(n as int)) == seq!['-'] + text::decimal(n),
{
    let digits = seq!['0', '1', '2', '3', '4', '5', '6', '7', '8', '9'];
    assert(digits[d as int] as nat == 48 + d);
    assert((10 * n + d) / 10 == n);
    assert((10 * n + d) % 10 == d);
}

/// No two integers are written alike.
pub proof fn law_decimals_differ(m: int, n: int)
    requires
        text::decimal_int(m) == text::decimal_int(n),
    ensures
        m == n,
{
    let a = if m < 0 { (-m) as nat } else { m as nat };
    let b = if n < 0 { (-n) as nat } else { n as nat };
    text::lemma_decimal_digits(a);
    text::lemma_decimal_digits(b);
    assert(text::is_digit(text::decimal(a)[0]));
    assert(text::is_digit(text::decimal(b)[0]));
    if m < 0 {
        assert(text::decimal_int(m)[0] == '-');
        assert(text::decimal_int(m).skip(1) =~= text::decimal(a));
    }
    if n < 0 {
        assert(text::decimal_int(n)[0] == '-');
        assert(text::decimal_int(n).skip(1) =~= text::decimal(b));
    }
}

/// What denotes a number denotes it with a plus sign before it and with zeros before it, too; one
/// more digit makes it ten times as much and the digit.
pub proof fn law_unsigned_value(s: Seq<char>, d: nat)
    requires
        d < 10,
        s.len() > 0,
        text::all_digits(s),
    ensures
        text::unsigned_value(s) is Some,
        text::unsigned_value(seq!['+'] + s) == text::unsigned_value(s),
        text::unsigned_value(seq!['0'] + s) == text::unsigned_value(s),
        ({
            let digit = seq!['0', '1', '2', '3', '4', '5', '6', '7', '8', '9'][d as int];
            &&& text::unsigned_value(seq![digit]) == Some(d)
            &&& text::unsigned_value(s.push(digit)) == Some(
                10 * text::unsigned_value(s)->Some_0 + d,
            )
        }),
{
    let digits = seq!['0', '1', '2', '3', '4', '5', '6', '7', '8', '9'];
    let digit = digits[d as int];
    assert(digit as nat == 48 + d);
    assert(text::is_digit(s[0]));
    assert((seq!['+'] + s).drop_first() =~= s);
    let longer = s.push(digit);
    assert forall|i: int| 0 <= i < longer.len() implies text::is_digit(#[trigger] longer[i]) by {
        if i < s.len() {
            assert(longer[i] == s[i]);
        }
    }
    assert(longer.drop_last() =~= s);
    assert(longer[0] == s[0]);
    let one = seq![digit];
    assert(one.drop_last() =~= Seq::<char>::empty());
    assert(text::digits_value(one.drop_last()) == 0);
    assert(text::is_digit(one[0]));
    let padded = seq!['0'] + s;
    assert forall|i: int| 0 <= i < padded.len() implies text::is_digit(#[trigger] padded[i]) by {
        if i > 0 {
            assert(padded[i] == s[i - 1]);
        }
    }
    lemma_leading_zero(s);
}

proof fn lemma_leading_zero(s: Seq<char>)
    ensures
        text::digits_value(seq!['0'] + s) == text::digits_value(s),
    decreases s.len(),
{
    let padded = seq!['0'] + s;
    if s.len() == 0 {
        assert(padded.drop_last() =~= s);
        assert(padded.last() == '0');
        assert(text::digits_value(padded.drop_last()) == 0);
    } else {
        assert(padded.drop_last() =~= seq!['0'] + s.drop_last());
        assert(padded.last() == s.last());
        lemma_leading_zero(s.drop_last());
    }
}

/// What denotes a number is digits, at least one of them, with at most a plus sign before them.
pub proof fn law_numbers_are_digits(s: Seq<char>)
    requires
        text::unsigned_value(s) is Some,
    ensures
        s.len() > 0,
        '0' <= s.last() <= '9',
        forall|i: int| 0 < i < s.len() ==> '0' <= #[trigger] s[i] <= '9',
        s[0] == '+' || '0' <= s[0] <= '9',
{
    let digits = if s[0] == '+' {
        s.drop_first()
    } else {
        s
    };
    assert(text::is_digit(digits.last()));
    assert forall|i: int| 0 < i < s.len() implies '0' <= #[trigger] s[i] <= '9' by {
        if s[0] == '+' {
            assert(text::is_digit(digits[i - 1]));
        } else {
            assert(text::is_digit(digits[i]));
        }
    }
    if s[0] != '+' {
        assert(text::is_digit(digits[0]));
    }
}

/// A relative path is put behind the path that it is seen from, with one separator between the
/// two; an absolute one stands for itself.
pub proof fn law_joined(base: Seq<char>, part: Seq<char>)
    ensures
        paths::joined(base, seq!['/'] + part) == seq!['/'] + part,
        !(part.len() > 0 && part[0] == '/') ==> {
            &&& paths::joined(Seq::empty(), part) == part
            &&& paths::joined(base.push('/'), part) == base + seq!['/'] + part
            &&& base.len() > 0 && base.last() != '/' ==> paths::joined(base, part) == base + seq![
                '/',
            ] + part
        },
{
    assert((seq!['/'] + part)[0] == '/');
    assert(base.push('/').last() == '/');
    assert(base.push('/') =~= base + seq!['/']);
    assert(Seq::<char>::empty() + part =~= part);
}

/// A path lies within a directory where it is the directory, or the directory and more behind a
/// separator.
pub proof fn law_within(dir: Seq<char>, rest: Seq<char>, path: Seq<char>)
    ensures
        paths::is_within(dir, dir),
        paths::is_within(dir + seq!['/'] + rest, dir),
        paths::is_within(path, dir) && path != dir ==> path.len() > dir.len() && path.take(
            dir.len() as int,
        ) == dir && path[dir.len() as int] == '/',
{
    assert((dir + seq!['/'] + rest).take(dir.len() as int + 1) =~= dir.push('/'));
    assert(dir.push('/').is_prefix_of(dir + seq!['/'] + rest));
    if paths::is_within(path, dir) && path != dir {
        assert(path.take(dir.len() as int + 1) =~= dir.push('/'));
        assert(path.take(dir.len() as int) =~= dir);
        assert(dir.push('/')[dir.len() as int] == '/');
        assert(path[dir.len() as int] == dir.push('/')[dir.len() as int]);
    }
}

} // verus!
