use vstd::prelude::*;

verus! {

/// Relies on std's String::push: appends exactly the one given character.
pub assume_specification[ String::push ](s: &mut String, ch: char)
    ensures
        final(s)@ == old(s)@ + seq![ch],
;

/// The decimal digit character for `d` (`d < 10`).
pub open spec fn digit_char(d: nat) -> char {
    ((48 + d) as u8) as char
}

/// The decimal digits of `n`, most significant first.
pub open spec fn dec_digits(n: nat) -> Seq<char>
    decreases n,
{
    if n < 10 {
        seq![digit_char(n)]
    } else {
        dec_digits(n / 10).push(digit_char(n % 10))
    }
}

/// The decimal rendering of `n`, with a leading minus sign when negative.
pub open spec fn dec_int(n: int) -> Seq<char> {
    if n < 0 {
        seq!['-'] + dec_digits((-n) as nat)
    } else {
        dec_digits(n as nat)
    }
}

/// The lower-case hexadecimal digit character for `d` (`d < 16`).
pub open spec fn hex_char(d: nat) -> char {
    if d < 10 {
        ((48 + d) as u8) as char
    } else {
        ((87 + d) as u8) as char
    }
}

/// How one character is written inside a JSON string literal: quote and
/// backslash get a backslash escape, control characters a `\u00XX` escape,
/// and every other character stands for itself.
pub open spec fn escaped_char(c: char) -> Seq<char> {
    if c == '"' {
        seq!['\\', '"']
    } else if c == '\\' {
        seq!['\\', '\\']
    } else if (c as u32) < 32 {
        seq!['\\', 'u', '0', '0'].push(hex_char(((c as u32) / 16) as nat)).push(
            hex_char(((c as u32) % 16) as nat),
        )
    } else {
        seq![c]
    }
}

/// `s` written character by character as inside a JSON string literal.
pub open spec fn escaped(s: Seq<char>) -> Seq<char>
    decreases s.len(),
{
    if s.len() == 0 {
        Seq::empty()
    } else {
        escaped_char(s[0]) + escaped(s.drop_first())
    }
}

/// The JSON string literal holding `s`: double quotes around the escaped
/// characters.
pub open spec fn json_quoted(s: Seq<char>) -> Seq<char> {
    seq!['"'] + escaped(s) + seq!['"']
}

fn digit_of(d: u32) -> (c: char)
    requires
        d < 10,
    ensures
        c == digit_char(d as nat),
{
    (48 + d as u8) as char
}

fn hex_of(d: u32) -> (c: char)
    requires
        d < 16,
    ensures
        c == hex_char(d as nat),
{
    if d < 10 {
        (48 + d as u8) as char
    } else {
        (87 + d as u8) as char
    }
}

fn push_dec_digits(out: &mut String, n: u32)
    ensures
        final(out)@ == old(out)@ + dec_digits(n as nat),
    decreases n,
{
    if n < 10 {
        out.push(digit_of(n));
    } else {
        push_dec_digits(out, n / 10);
        out.push(digit_of(n % 10));
    }
}

/// Renders `n` in decimal.
pub fn int_to_string(n: i32) -> (r: String)
    ensures
        r@ == dec_int(n as int),
{
    let mut out = String::new();
    if n < 0 {
        out.push('-');
        let m: u32 = (-(n as i64)) as u32;
        push_dec_digits(&mut out, m);
    } else {
        push_dec_digits(&mut out, n as u32);
    }
    out
}

fn push_escaped_char(out: &mut String, c: char)
    ensures
        final(out)@ == old(out)@ + escaped_char(c),
{
    if c == '"' {
        out.push('\\');
        out.push('"');
        assert(final(out)@ =~= old(out)@ + escaped_char(c));
    } else if c == '\\' {
        out.push('\\');
        out.push('\\');
        assert(final(out)@ =~= old(out)@ + escaped_char(c));
    } else if (c as u32) < 32 {
        out.push('\\');
        out.push('u');
        out.push('0');
        out.push('0');
        out.push(hex_of((c as u32) / 16));
        out.push(hex_of((c as u32) % 16));
        assert(final(out)@ =~= old(out)@ + escaped_char(c));
    } else {
        out.push(c);
        assert(final(out)@ =~= old(out)@ + escaped_char(c));
    }
}

fn push_escaped(out: &mut String, s: &str, i: usize)
    requires
        i <= s@.len(),
    ensures
        final(out)@ == old(out)@ + escaped(s@.subrange(i as int, s@.len() as int)),
    decreases s@.len() - i,
{
    let n = s.unicode_len();
    if i < n {
        let c = s.get_char(i);
        push_escaped_char(out, c);
        push_escaped(out, s, i + 1);
        proof {
            let tail = s@.subrange(i as int, s@.len() as int);
            assert(tail[0] == c);
            assert(tail.drop_first() =~= s@.subrange(i + 1, s@.len() as int));
            assert(final(out)@ =~= old(out)@ + escaped(tail));
        }
    } else {
        proof {
            assert(s@.subrange(i as int, s@.len() as int) =~= Seq::<char>::empty());
            assert(final(out)@ =~= old(out)@ + escaped(Seq::<char>::empty()));
        }
    }
}

/// Writes `s` as a JSON string literal: escaped and wrapped in double quotes.
pub fn json_quote(s: &str) -> (r: String)
    ensures
        r@ == json_quoted(s@),
{
    let mut out = String::new();
    out.push('"');
    push_escaped(&mut out, s, 0);
    out.push('"');
    proof {
        assert(s@.subrange(0, s@.len() as int) =~= s@);
        assert(out@ =~= json_quoted(s@));
    }
    out
}

/// `s` with every trailing `/` removed.
pub open spec fn trimmed_end_slashes(s: Seq<char>) -> Seq<char>
    decreases s.len(),
{
    if s.len() == 0 {
        s
    } else if s[s.len() - 1] == '/' {
        trimmed_end_slashes(s.drop_last())
    } else {
        s
    }
}

/// Removes every trailing `/` from `s`.
pub fn trim_end_slashes(s: &str) -> (r: String)
    ensures
        r@ == trimmed_end_slashes(s@),
{
    let n = s.unicode_len();
    let mut k: usize = n;
    proof {
        assert(s@.subrange(0, n as int) =~= s@);
    }
    while k > 0 && s.get_char(k - 1) == '/'
        invariant
            k <= s@.len(),
            trimmed_end_slashes(s@) == trimmed_end_slashes(s@.subrange(0, k as int)),
        decreases k,
    {
        proof {
            let cur = s@.subrange(0, k as int);
            assert(cur[cur.len() - 1] == s@[k - 1]);
            assert(cur.drop_last() =~= s@.subrange(0, k - 1));
        }
        k = k - 1;
    }
    proof {
        let cur = s@.subrange(0, k as int);
        if k > 0 {
            assert(cur[cur.len() - 1] == s@[k - 1]);
        }
        assert(trimmed_end_slashes(cur) == cur);
    }
    let r = String::from_str(s.substring_char(0, k));
    r
}

/// The characters of the file extension `.json`.
pub open spec fn json_ext() -> Seq<char> {
    seq!['.', 'j', 's', 'o', 'n']
}

/// Whether the path `s` ends in `.json`.
pub open spec fn is_json_path(s: Seq<char>) -> bool {
    s.len() >= 5 && s.subrange(s.len() - 5, s.len() as int) == json_ext()
}

/// Whether the path `s` names a `.json` file.
pub fn path_has_json_ext(s: &str) -> (b: bool)
    ensures
        b == is_json_path(s@),
{
    let n = s.unicode_len();
    if n < 5 {
        return false;
    }
    let c0 = s.get_char(n - 5);
    let c1 = s.get_char(n - 4);
    let c2 = s.get_char(n - 3);
    let c3 = s.get_char(n - 2);
    let c4 = s.get_char(n - 1);
    let b = c0 == '.' && c1 == 'j' && c2 == 's' && c3 == 'o' && c4 == 'n';
    proof {
        let sub = s@.subrange(s@.len() - 5, s@.len() as int);
        assert(sub[0] == c0 && sub[1] == c1 && sub[2] == c2 && sub[3] == c3 && sub[4] == c4);
        if b {
            assert(sub =~= json_ext());
        } else {
            assert(sub != json_ext()) by {
                if sub == json_ext() {
                    assert(sub[0] == '.' && sub[1] == 'j' && sub[2] == 's' && sub[3] == 'o'
                        && sub[4] == 'n');
                }
            }
        }
    }
    b
}

/// Whether two string slices hold the same characters.
pub fn str_eq(a: &str, b: &str) -> (r: bool)
    ensures
        r == (a@ == b@),
{
    let n = a.unicode_len();
    let m = b.unicode_len();
    if n != m {
        return false;
    }
    let mut i: usize = 0;
    while i < n
        invariant
            i <= n,
            n == a@.len(),
            n == b@.len(),
            forall|j: int| 0 <= j < i ==> a@[j] == b@[j],
        decreases n - i,
    {
        if a.get_char(i) != b.get_char(i) {
            return false;
        }
        i = i + 1;
    }
    proof {
        assert(a@ =~= b@);
    }
    true
}

/// `items` joined by `sep`.
pub open spec fn joined(items: Seq<Seq<char>>, sep: Seq<char>) -> Seq<char>
    decreases items.len(),
{
    if items.len() == 0 {
        Seq::empty()
    } else if items.len() == 1 {
        items[0]
    } else {
        items[0] + sep + joined(items.drop_first(), sep)
    }
}

fn join_comma_from(items: &Vec<String>, i: usize, out: &mut String)
    requires
        i <= items@.len(),
    ensures
        final(out)@ == old(out)@ + joined(
            items.deep_view().subrange(i as int, items@.len() as int),
            ", "@,
        ),
    decreases items@.len() - i,
{
    if i < items.len() {
        out.append(items[i].as_str());
        if i + 1 < items.len() {
            out.append(", ");
            join_comma_from(items, i + 1, out);
        }
        proof {
            let tail = items.deep_view().subrange(i as int, items@.len() as int);
            assert(tail[0] == items.deep_view()[i as int]);
            if i + 1 < items@.len() {
                assert(tail.drop_first() =~= items.deep_view().subrange(
                    i + 1,
                    items@.len() as int,
                ));
                assert(final(out)@ =~= old(out)@ + joined(tail, ", "@));
            } else {
                assert(tail.len() == 1);
                assert(final(out)@ =~= old(out)@ + joined(tail, ", "@));
            }
        }
    } else {
        proof {
            let tail = items.deep_view().subrange(i as int, items@.len() as int);
            assert(tail.len() == 0);
            assert(final(out)@ =~= old(out)@ + joined(tail, ", "@));
        }
    }
}

/// Joins `items` with `", "` between them.
pub fn join_comma(items: &Vec<String>) -> (r: String)
    ensures
        r@ == joined(items.deep_view(), ", "@),
{
    let mut out = String::new();
    join_comma_from(items, 0, &mut out);
    proof {
        assert(items.deep_view().subrange(0, items@.len() as int) =~= items.deep_view());
        assert(out@ =~= joined(items.deep_view(), ", "@));
    }
    out
}

} // verus!
