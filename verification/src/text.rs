//! Deterministic string transforms: case conversions, sanitization, joining
//! and indentation. Every emitter derives its cross-file names from the
//! functions in this module, which keeps generated artifacts consistent.

use vstd::prelude::*;
use vstd::string::StringExecFns;
use vstd::string::StrSliceExecFns;

verus! {

/// What convert_case's `to_case(Case::Pascal)` returns for a string.
pub uninterp spec fn pascal_of(s: Seq<char>) -> Seq<char>;

/// What convert_case's `to_case(Case::Camel)` returns for a string.
pub uninterp spec fn camel_of(s: Seq<char>) -> Seq<char>;

/// What convert_case's `to_case(Case::Snake)` returns for a string.
pub uninterp spec fn snake_of(s: Seq<char>) -> Seq<char>;

/// What convert_case's `to_case(Case::Kebab)` returns for a string.
pub uninterp spec fn kebab_of(s: Seq<char>) -> Seq<char>;

/// What convert_case's `to_case(Case::Flat)` returns for a string.
pub uninterp spec fn flat_of(s: Seq<char>) -> Seq<char>;

/// What str::to_lowercase returns for a string.
pub uninterp spec fn lower_of(s: Seq<char>) -> Seq<char>;

/// What str::trim returns for a string.
pub uninterp spec fn trim_of(s: Seq<char>) -> Seq<char>;

/// Relies on convert_case's `Casing::to_case` with `Case::Pascal`:
/// the result depends on the input characters alone.
#[verifier::external_body]
pub fn pascal_case(value: &str) -> (r: String)
    ensures
        r@ == pascal_of(value@),
{
    convert_case::Casing::to_case(&value, convert_case::Case::Pascal)
}

/// Relies on convert_case's `Casing::to_case` with `Case::Camel`:
/// the result depends on the input characters alone.
#[verifier::external_body]
pub fn camel_case(value: &str) -> (r: String)
    ensures
        r@ == camel_of(value@),
{
    convert_case::Casing::to_case(&value, convert_case::Case::Camel)
}

/// Relies on convert_case's `Casing::to_case` with `Case::Snake`:
/// the result depends on the input characters alone.
#[verifier::external_body]
pub fn snake_case(value: &str) -> (r: String)
    ensures
        r@ == snake_of(value@),
{
    convert_case::Casing::to_case(&value, convert_case::Case::Snake)
}

/// Relies on convert_case's `Casing::to_case` with `Case::Kebab`:
/// the result depends on the input characters alone.
#[verifier::external_body]
pub fn kebab_case(value: &str) -> (r: String)
    ensures
        r@ == kebab_of(value@),
{
    convert_case::Casing::to_case(&value, convert_case::Case::Kebab)
}

/// Relies on convert_case's `Casing::to_case` with `Case::Flat`:
/// the result depends on the input characters alone.
#[verifier::external_body]
pub fn flat_case(value: &str) -> (r: String)
    ensures
        r@ == flat_of(value@),
{
    convert_case::Casing::to_case(&value, convert_case::Case::Flat)
}

/// Relies on str::to_lowercase: the result depends on the characters alone.
#[verifier::external_body]
fn lowercase(value: &str) -> (r: String)
    ensures
        r@ == lower_of(value@),
{
    value.to_lowercase()
}

/// Relies on str::trim: the result depends on the characters alone.
#[verifier::external_body]
pub fn trimmed(value: &str) -> (r: String)
    ensures
        r@ == trim_of(value@),
{
    value.trim().to_owned()
}

/// Relies on String::push: appends exactly one character.
#[verifier::external_body]
pub fn push_char(s: &mut String, c: char)
    ensures
        final(s)@ == old(s)@.push(c),
{
    s.push(c);
}

pub open spec fn is_ascii_alpha(c: char) -> bool {
    ('a' <= c && c <= 'z') || ('A' <= c && c <= 'Z')
}

pub open spec fn is_ascii_digit(c: char) -> bool {
    '0' <= c && c <= '9'
}

/// Every character outside `[a-zA-Z]` replaced by an underscore.
pub open spec fn spec_underscore_non_alpha(s: Seq<char>) -> Seq<char> {
    s.map_values(|c: char| if is_ascii_alpha(c) { c } else { '_' })
}

/// Every character outside `[a-zA-Z0-9]` replaced by an underscore.
pub open spec fn spec_underscore_non_alnum(s: Seq<char>) -> Seq<char> {
    s.map_values(|c: char| if is_ascii_alpha(c) || is_ascii_digit(c) { c } else { '_' })
}

fn underscore_non_alpha(value: &str) -> (r: String)
    ensures
        r@ == spec_underscore_non_alpha(value@),
{
    let n: usize = value.unicode_len();
    let mut out = String::new();
    let mut i: usize = 0;
    while i < n
        invariant
            i <= n,
            n == value@.len(),
            out@ == spec_underscore_non_alpha(value@.subrange(0, i as int)),
        decreases n - i,
    {
        let c = value.get_char(i);
        if ('a' <= c && c <= 'z') || ('A' <= c && c <= 'Z') {
            push_char(&mut out, c);
        } else {
            push_char(&mut out, '_');
        }
        i = i + 1;
        assert(value@.subrange(0, i as int) =~= value@.subrange(0, i - 1 as int).push(
            value@[i - 1],
        ));
        assert(out@ =~= spec_underscore_non_alpha(value@.subrange(0, i as int)));
    }
    proof {
        assert(value@.subrange(0, n as int) =~= value@);
    }
    out
}

fn underscore_non_alnum(value: &str) -> (r: String)
    ensures
        r@ == spec_underscore_non_alnum(value@),
{
    let n: usize = value.unicode_len();
    let mut out = String::new();
    let mut i: usize = 0;
    while i < n
        invariant
            i <= n,
            n == value@.len(),
            out@ == spec_underscore_non_alnum(value@.subrange(0, i as int)),
        decreases n - i,
    {
        let c = value.get_char(i);
        if ('a' <= c && c <= 'z') || ('A' <= c && c <= 'Z') || ('0' <= c && c <= '9') {
            push_char(&mut out, c);
        } else {
            push_char(&mut out, '_');
        }
        i = i + 1;
        assert(value@.subrange(0, i as int) =~= value@.subrange(0, i - 1 as int).push(
            value@[i - 1],
        ));
        assert(out@ =~= spec_underscore_non_alnum(value@.subrange(0, i as int)));
    }
    proof {
        assert(value@.subrange(0, n as int) =~= value@);
    }
    out
}

/// The canonical identifier sanitization: every character outside `[a-zA-Z]`
/// becomes an underscore, then the whole string is snake-cased.
pub open spec fn spec_sanitize(s: Seq<char>) -> Seq<char> {
    snake_of(spec_underscore_non_alpha(s))
}

/// Sanitize a free-form name into a host-language identifier.
pub fn sanitize_str(value: &str) -> (r: String)
    ensures
        r@ == spec_sanitize(value@),
{
    let replaced = underscore_non_alpha(value);
    snake_case(replaced.as_str())
}

/// The sanitized form a `SanitizedString` holds: lowercased, with every
/// character outside `[a-zA-Z0-9]` replaced by an underscore.
pub open spec fn spec_sanitized_lower(s: Seq<char>) -> Seq<char> {
    spec_underscore_non_alnum(lower_of(s))
}

/// A name lowered and stripped to `[a-z0-9_]`, fit for file and library names.
#[derive(Debug, Clone)]
pub struct SanitizedString(pub String);

impl SanitizedString {
    /// Build the sanitized form of `value`.
    pub fn new(value: &str) -> (r: SanitizedString)
        ensures
            r.0@ == spec_sanitized_lower(value@),
    {
        let lowered = lowercase(value);
        SanitizedString(underscore_non_alnum(lowered.as_str()))
    }

    pub fn to_string(&self) -> (r: String)
        ensures
            r@ == self.0@,
    {
        self.0.clone()
    }

    pub fn to_str(&self) -> (r: &str)
        ensures
            r@ == self.0@,
    {
        self.0.as_str()
    }
}

/// The views of a sequence of strings.
pub open spec fn views_of(parts: Seq<String>) -> Seq<Seq<char>> {
    parts.map_values(|p: String| p@)
}

pub proof fn lemma_views_concat(a: Seq<String>, b: Seq<String>)
    ensures
        views_of(a + b) == views_of(a) + views_of(b),
{
    assert(views_of(a + b) =~= views_of(a) + views_of(b));
}

pub proof fn lemma_views_push(parts: Seq<String>, x: String)
    ensures
        views_of(parts.push(x)) == views_of(parts).push(x@),
{
    assert(views_of(parts.push(x)) =~= views_of(parts).push(x@));
}

/// `parts` joined with `sep` between neighbours.
pub open spec fn spec_join(parts: Seq<Seq<char>>, sep: Seq<char>) -> Seq<char>
    decreases parts.len(),
{
    if parts.len() == 0 {
        Seq::empty()
    } else if parts.len() == 1 {
        parts[0]
    } else {
        parts[0] + sep + spec_join(parts.drop_first(), sep)
    }
}

pub proof fn lemma_join_push(parts: Seq<Seq<char>>, sep: Seq<char>, x: Seq<char>)
    ensures
        spec_join(parts.push(x), sep) == if parts.len() == 0 {
            x
        } else {
            spec_join(parts, sep) + sep + x
        },
    decreases parts.len(),
{
    if parts.len() == 0 {
        assert(parts.push(x).len() == 1);
        assert(parts.push(x)[0] == x);
    } else if parts.len() == 1 {
        let p = parts.push(x);
        assert(p.len() == 2);
        assert(p[0] == parts[0]);
        assert(p.drop_first() =~= seq![x]);
        assert(seq![x].len() == 1 && seq![x][0] == x);
        assert(spec_join(seq![x], sep) == x);
        assert(spec_join(p, sep) == parts[0] + sep + x);
    } else {
        assert(parts.push(x).drop_first() =~= parts.drop_first().push(x));
        lemma_join_push(parts.drop_first(), sep, x);
        assert(parts[0] + sep + (spec_join(parts.drop_first(), sep) + sep + x) =~= (parts[0] + sep
            + spec_join(parts.drop_first(), sep)) + sep + x);
    }
}

/// Join the strings in `parts` with `sep` between neighbours.
pub fn join_strings(parts: &Vec<String>, sep: &str) -> (r: String)
    ensures
        r@ == spec_join(views_of(parts@), sep@),
{
    let mut out = String::new();
    let mut i: usize = 0;
    while i < parts.len()
        invariant
            i <= parts@.len(),
            i == 0 ==> out@ == Seq::<char>::empty(),
            i > 0 ==> out@ == spec_join(views_of(parts@.subrange(0, i as int)), sep@),
        decreases parts@.len() - i,
    {
        if i > 0 {
            out.append(sep);
        }
        out.append(parts[i].as_str());
        i = i + 1;
        proof {
            let prefix = parts@.subrange(0, i - 1 as int);
            assert(parts@.subrange(0, i as int) =~= prefix.push(parts@[i - 1]));
            assert(views_of(prefix.push(parts@[i - 1])) =~= views_of(prefix).push(
                parts@[i - 1]@,
            ));
            lemma_join_push(views_of(prefix), sep@, parts@[i - 1]@);
        }
    }
    proof {
        if parts@.len() == 0 {
            assert(views_of(parts@).len() == 0);
        } else {
            assert(parts@.subrange(0, parts@.len() as int) =~= parts@);
        }
    }
    out
}

/// The body of an indented text: `pad` inserted after every newline.
pub open spec fn spec_indent_tail(s: Seq<char>, pad: Seq<char>) -> Seq<char>
    decreases s.len(),
{
    if s.len() == 0 {
        Seq::empty()
    } else if s[0] == '\n' {
        seq!['\n'] + pad + spec_indent_tail(s.drop_first(), pad)
    } else {
        seq![s[0]] + spec_indent_tail(s.drop_first(), pad)
    }
}

/// A text indented by `pad`: `pad` at the start and after every newline.
pub open spec fn spec_indent(s: Seq<char>, pad: Seq<char>) -> Seq<char> {
    pad + spec_indent_tail(s, pad)
}

pub proof fn lemma_indent_tail_push(s: Seq<char>, pad: Seq<char>, c: char)
    ensures
        spec_indent_tail(s.push(c), pad) == spec_indent_tail(s, pad) + (if c == '\n' {
            seq!['\n'] + pad
        } else {
            seq![c]
        }),
    decreases s.len(),
{
    let tailpiece: Seq<char> = if c == '\n' {
        seq!['\n'] + pad
    } else {
        seq![c]
    };
    if s.len() == 0 {
        assert(s.push(c)[0] == c);
        assert(s.push(c).drop_first() =~= Seq::<char>::empty());
        assert(spec_indent_tail(Seq::<char>::empty(), pad) == Seq::<char>::empty());
        assert(spec_indent_tail(s, pad) == Seq::<char>::empty());
        if c == '\n' {
            assert(spec_indent_tail(s.push(c), pad) == seq!['\n'] + pad + Seq::<char>::empty());
            assert(seq!['\n'] + pad + Seq::<char>::empty() =~= seq!['\n'] + pad);
            assert(spec_indent_tail(s, pad) + tailpiece =~= seq!['\n'] + pad);
        } else {
            assert(spec_indent_tail(s.push(c), pad) == seq![c] + Seq::<char>::empty());
            assert(seq![c] + Seq::<char>::empty() =~= seq![c]);
            assert(spec_indent_tail(s, pad) + tailpiece =~= seq![c]);
        }
    } else {
        assert(s.push(c)[0] == s[0]);
        assert(s.push(c).drop_first() =~= s.drop_first().push(c));
        lemma_indent_tail_push(s.drop_first(), pad, c);
        if s[0] == '\n' {
            assert((seq!['\n'] + pad) + (spec_indent_tail(s.drop_first(), pad) + tailpiece) =~= ((
            seq!['\n'] + pad) + spec_indent_tail(s.drop_first(), pad)) + tailpiece);
        } else {
            assert(seq![s[0]] + (spec_indent_tail(s.drop_first(), pad) + tailpiece) =~= (seq![
                s[0],
            ] + spec_indent_tail(s.drop_first(), pad)) + tailpiece);
        }
    }
}

/// A run of `n` spaces.
pub open spec fn spec_spaces(n: nat) -> Seq<char>
    decreases n,
{
    if n == 0 {
        Seq::empty()
    } else {
        spec_spaces((n - 1) as nat).push(' ')
    }
}

pub fn spaces(n: usize) -> (r: String)
    ensures
        r@ == spec_spaces(n as nat),
{
    let mut out = String::new();
    let mut i: usize = 0;
    while i < n
        invariant
            i <= n,
            out@ == spec_spaces(i as nat),
        decreases n - i,
    {
        push_char(&mut out, ' ');
        i = i + 1;
    }
    out
}

/// Indent every line of `code` by `n` spaces.
pub fn indent_str(code: &str, n: usize) -> (r: String)
    ensures
        r@ == spec_indent(code@, spec_spaces(n as nat)),
{
    let pad = spaces(n);
    let len: usize = code.unicode_len();
    let mut out = pad.clone();
    let mut i: usize = 0;
    while i < len
        invariant
            i <= len,
            len == code@.len(),
            pad@ == spec_spaces(n as nat),
            out@ == pad@ + spec_indent_tail(code@.subrange(0, i as int), pad@),
        decreases len - i,
    {
        let c = code.get_char(i);
        if c == '\n' {
            push_char(&mut out, '\n');
            out.append(pad.as_str());
        } else {
            push_char(&mut out, c);
        }
        i = i + 1;
        proof {
            let prefix = code@.subrange(0, i - 1 as int);
            assert(code@.subrange(0, i as int) =~= prefix.push(code@[i - 1]));
            lemma_indent_tail_push(prefix, pad@, code@[i - 1]);
            if code@[i - 1] == '\n' {
                assert(pad@ + (spec_indent_tail(prefix, pad@) + (seq!['\n'] + pad@)) =~= (pad@
                    + spec_indent_tail(prefix, pad@)) + seq!['\n'] + pad@);
            } else {
                assert(pad@ + (spec_indent_tail(prefix, pad@) + seq![code@[i - 1]]) =~= (pad@
                    + spec_indent_tail(prefix, pad@)).push(code@[i - 1]));
            }
        }
    }
    proof {
        assert(code@.subrange(0, len as int) =~= code@);
    }
    out
}

pub open spec fn spec_digit_char(d: nat) -> char {
    seq!['0', '1', '2', '3', '4', '5', '6', '7', '8', '9'][d as int]
}

/// The decimal digits of `n`, most significant first.
pub open spec fn spec_dec_digits(n: nat) -> Seq<char>
    decreases n,
{
    if n < 10 {
        seq![spec_digit_char(n)]
    } else {
        spec_dec_digits(n / 10) + seq![spec_digit_char(n % 10)]
    }
}

fn digit_to_char(d: usize) -> (c: char)
    requires
        d < 10,
    ensures
        c == spec_digit_char(d as nat),
{
    match d {
        0 => '0',
        1 => '1',
        2 => '2',
        3 => '3',
        4 => '4',
        5 => '5',
        6 => '6',
        7 => '7',
        8 => '8',
        _ => '9',
    }
}

/// Render `n` in decimal.
pub fn usize_to_string(n: usize) -> (r: String)
    ensures
        r@ == spec_dec_digits(n as nat),
    decreases n,
{
    if n < 10 {
        let mut out = String::new();
        push_char(&mut out, digit_to_char(n));
        out
    } else {
        let mut out = usize_to_string(n / 10);
        push_char(&mut out, digit_to_char(n % 10));
        out
    }
}

pub open spec fn spec_hex_char(d: nat) -> char {
    seq![
        '0',
        '1',
        '2',
        '3',
        '4',
        '5',
        '6',
        '7',
        '8',
        '9',
        'a',
        'b',
        'c',
        'd',
        'e',
        'f',
    ][d as int]
}

/// The `width` low hex digits of `n`, most significant first,
/// zero-padded on the left.
pub open spec fn spec_hex_digits(n: nat, width: nat) -> Seq<char>
    decreases width,
{
    if width == 0 {
        Seq::empty()
    } else {
        spec_hex_digits(n / 16, (width - 1) as nat) + seq![spec_hex_char(n % 16)]
    }
}

fn hex_digit_to_char(d: u64) -> (c: char)
    requires
        d < 16,
    ensures
        c == spec_hex_char(d as nat),
{
    match d {
        0 => '0',
        1 => '1',
        2 => '2',
        3 => '3',
        4 => '4',
        5 => '5',
        6 => '6',
        7 => '7',
        8 => '8',
        9 => '9',
        10 => 'a',
        11 => 'b',
        12 => 'c',
        13 => 'd',
        14 => 'e',
        _ => 'f',
    }
}

/// Render the `width` low hex digits of `n`, zero-padded.
pub fn u64_to_hex_fixed(n: u64, width: usize) -> (r: String)
    ensures
        r@ == spec_hex_digits(n as nat, width as nat),
    decreases width,
{
    if width == 0 {
        String::new()
    } else {
        let mut out = u64_to_hex_fixed(n / 16, width - 1);
        push_char(&mut out, hex_digit_to_char(n % 16));
        out
    }
}

/// Whether `s` starts with `prefix`.
pub open spec fn spec_has_prefix(s: Seq<char>, prefix: Seq<char>) -> bool {
    s.len() >= prefix.len() && s.subrange(0, prefix.len() as int) == prefix
}

/// Whether a string starts with a given prefix.
pub fn has_prefix(s: &str, prefix: &str) -> (r: bool)
    ensures
        r == spec_has_prefix(s@, prefix@),
{
    let n: usize = s.unicode_len();
    let m: usize = prefix.unicode_len();
    if m > n {
        return false;
    }
    let mut j: usize = 0;
    while j < m
        invariant
            j <= m,
            m <= n,
            n == s@.len(),
            m == prefix@.len(),
            forall|k: int| 0 <= k < j ==> s@[k] == prefix@[k],
        decreases m - j,
    {
        if s.get_char(j) != prefix.get_char(j) {
            proof {
                assert(s@.subrange(0, prefix@.len() as int)[j as int] == s@[j as int]);
            }
            return false;
        }
        j = j + 1;
    }
    proof {
        assert(s@.subrange(0, prefix@.len() as int) =~= prefix@);
    }
    true
}

/// Whether `pat` occurs in `s` as a contiguous subsequence.
pub open spec fn spec_contains(s: Seq<char>, pat: Seq<char>) -> bool {
    exists|i: int|
        0 <= i && i + pat.len() <= s.len() && #[trigger] s.subrange(i, i + pat.len() as int)
            == pat
}

fn matches_at(s: &str, len: usize, pat: &str, plen: usize, at: usize) -> (r: bool)
    requires
        len == s@.len(),
        plen == pat@.len(),
        at + plen <= len,
    ensures
        r == (s@.subrange(at as int, at + plen as int) == pat@),
{
    let mut j: usize = 0;
    while j < plen
        invariant
            j <= plen,
            len == s@.len(),
            plen == pat@.len(),
            at + plen <= len,
            forall|k: int| 0 <= k < j ==> s@[at + k] == pat@[k],
        decreases plen - j,
    {
        if s.get_char(at + j) != pat.get_char(j) {
            proof {
                assert(s@.subrange(at as int, at + plen as int)[j as int] == s@[at + j]);
            }
            return false;
        }
        j = j + 1;
    }
    proof {
        assert(s@.subrange(at as int, at + plen as int) =~= pat@);
    }
    true
}

/// Whether `pat` occurs in `s`.
pub fn contains_str(s: &str, pat: &str) -> (r: bool)
    ensures
        r == spec_contains(s@, pat@),
{
    let len: usize = s.unicode_len();
    let plen: usize = pat.unicode_len();
    if plen > len {
        proof {
            assert(forall|i: int|
                0 <= i && i + pat@.len() <= s@.len() ==> !(#[trigger] s@.subrange(
                    i,
                    i + pat@.len() as int,
                ) == pat@));
        }
        return false;
    }
    if plen == 0 {
        proof {
            assert(s@.subrange(0, 0 + pat@.len() as int) =~= pat@);
        }
        return true;
    }
    let mut i: usize = 0;
    while i <= len - plen
        invariant
            len == s@.len(),
            plen == pat@.len(),
            0 < plen <= len,
            i <= len - plen + 1,
            forall|k: int|
                0 <= k < i ==> #[trigger] s@.subrange(k, k + pat@.len() as int) != pat@,
        decreases len - i,
    {
        if matches_at(s, len, pat, plen, i) {
            return true;
        }
        i = i + 1;
    }
    proof {
        assert(forall|k: int|
            0 <= k && k + pat@.len() <= s@.len() ==> #[trigger] s@.subrange(
                k,
                k + pat@.len() as int,
            ) != pat@);
    }
    false
}

} // verus!
