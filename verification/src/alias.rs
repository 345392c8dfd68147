//! Room alias grammar: the human-readable alias strings that carry category
//! and post identity (`#forum_post_<digits>:corepaper.org` for posts,
//! `#forum-<slug>:corepaper.org` for categories). Encoding and decoding are
//! exact inverses for every post id; decoding rejects anything that does not
//! match the grammar.
use vstd::prelude::*;

verus! {

// ---------------------------------------------------------------------------
// Decimal digit strings
// ---------------------------------------------------------------------------

pub open spec fn is_digit_char(c: char) -> bool {
    '0' <= c && c <= '9'
}

pub open spec fn digit_value(c: char) -> nat {
    (c as u32 - '0' as u32) as nat
}

pub open spec fn is_digit_seq(s: Seq<char>) -> bool {
    forall|i: int| 0 <= i < s.len() ==> is_digit_char(#[trigger] s[i])
}

/// The number denoted by a digit string, most significant digit first.
pub open spec fn digit_seq_value(s: Seq<char>) -> nat
    decreases s.len(),
{
    if s.len() == 0 {
        0
    } else {
        digit_seq_value(s.drop_last()) * 10 + digit_value(s.last())
    }
}

pub open spec fn digit_char(d: nat) -> char {
    if d == 0 {
        '0'
    } else if d == 1 {
        '1'
    } else if d == 2 {
        '2'
    } else if d == 3 {
        '3'
    } else if d == 4 {
        '4'
    } else if d == 5 {
        '5'
    } else if d == 6 {
        '6'
    } else if d == 7 {
        '7'
    } else if d == 8 {
        '8'
    } else {
        '9'
    }
}

/// The canonical decimal rendering of `n`: no sign, no leading zeros.
pub open spec fn decimal_digits(n: nat) -> Seq<char>
    decreases n,
{
    if n < 10 {
        seq![digit_char(n)]
    } else {
        decimal_digits(n / 10).push(digit_char(n % 10))
    }
}

pub proof fn lemma_decimal_digits_wf(n: nat)
    ensures
        decimal_digits(n).len() >= 1,
        is_digit_seq(decimal_digits(n)),
        digit_seq_value(decimal_digits(n)) == n,
    decreases n,
{
    if n < 10 {
        assert(decimal_digits(n) == seq![digit_char(n)]);
        assert(digit_seq_value(seq![digit_char(n)].drop_last()) == 0);
    } else {
        lemma_decimal_digits_wf(n / 10);
        let prev = decimal_digits(n / 10);
        let whole = prev.push(digit_char(n % 10));
        assert(whole.drop_last() =~= prev);
        assert(whole.last() == digit_char(n % 10));
        assert(digit_value(digit_char(n % 10)) == n % 10);
        vstd::arithmetic::div_mod::lemma_fundamental_div_mod(n as int, 10);
    }
}

/// A digit string denotes at least as much as any of its prefixes.
pub proof fn lemma_digit_seq_value_prefix(s: Seq<char>, k: int)
    requires
        0 <= k <= s.len(),
    ensures
        digit_seq_value(s.take(k)) <= digit_seq_value(s),
    decreases s.len() - k,
{
    if k == s.len() {
        assert(s.take(k) =~= s);
    } else {
        lemma_digit_seq_value_prefix(s, k + 1);
        let t = s.take(k + 1);
        assert(t.drop_last() =~= s.take(k));
        assert(digit_seq_value(s.take(k)) * 10 >= digit_seq_value(s.take(k)));
        assert(digit_seq_value(s.take(k)) <= digit_seq_value(t));
    }
}

fn digit_to_str(d: u64) -> (r: &'static str)
    requires
        d < 10,
    ensures
        r@ == seq![digit_char(d as nat)],
{
    proof {
        reveal_strlit("0");
        reveal_strlit("1");
        reveal_strlit("2");
        reveal_strlit("3");
        reveal_strlit("4");
        reveal_strlit("5");
        reveal_strlit("6");
        reveal_strlit("7");
        reveal_strlit("8");
        reveal_strlit("9");
    }
    let r = match d {
        0 => "0",
        1 => "1",
        2 => "2",
        3 => "3",
        4 => "4",
        5 => "5",
        6 => "6",
        7 => "7",
        8 => "8",
        _ => "9",
    };
    proof {
        assert(r@ =~= seq![digit_char(d as nat)]);
    }
    r
}

/// Renders `n` in decimal.
pub fn encode_decimal(n: u64) -> (r: String)
    ensures
        r@ == decimal_digits(n as nat),
    decreases n,
{
    if n < 10 {
        String::from_str(digit_to_str(n))
    } else {
        let mut s = encode_decimal(n / 10);
        s.append(digit_to_str(n % 10));
        proof {
            assert(decimal_digits(n as nat) =~= decimal_digits((n / 10) as nat) + seq![
                digit_char((n % 10) as nat),
            ]);
        }
        s
    }
}

// ---------------------------------------------------------------------------
// Post localparts: `forum_post_<digits>`
// ---------------------------------------------------------------------------

/// The alias localpart that encodes post id `n`.
pub open spec fn post_localpart(n: nat) -> Seq<char> {
    "forum_post_"@ + decimal_digits(n)
}

/// Whether `s` matches `forum_post_<digits>`: the exact prefix followed by a
/// non-empty run of decimal digits and nothing else.
pub open spec fn post_localpart_pattern(s: Seq<char>) -> bool {
    &&& s.len() > "forum_post_"@.len()
    &&& s.subrange(0, "forum_post_"@.len() as int) == "forum_post_"@
    &&& is_digit_seq(s.skip("forum_post_"@.len() as int))
}

/// The post id denoted by a matching localpart.
pub open spec fn post_localpart_value(s: Seq<char>) -> nat {
    digit_seq_value(s.skip("forum_post_"@.len() as int))
}

/// What decoding a localpart yields: the digit run's value when `s` matches
/// the pattern and the value is representable, `None` otherwise.
pub open spec fn spec_decode_post(s: Seq<char>) -> Option<u64> {
    if post_localpart_pattern(s) && post_localpart_value(s) <= u64::MAX {
        Some(post_localpart_value(s) as u64)
    } else {
        None
    }
}

/// Encodes a post id as its alias localpart.
pub fn encode_post(id: u64) -> (r: String)
    ensures
        r@ == post_localpart(id as nat),
{
    let mut s = String::from_str("forum_post_");
    let digits = encode_decimal(id);
    s.append(digits.as_str());
    s
}

/// Parses a `forum_post_<digits>` localpart back into a post id. Anything
/// that does not match the pattern exactly — wrong prefix, empty digit run,
/// trailing garbage, or a value too large to represent — yields `None`.
pub fn decode_post(s: &str) -> (r: Option<u64>)
    ensures
        r == spec_decode_post(s@),
{
    let pre = "forum_post_";
    proof {
        reveal_strlit("forum_post_");
    }
    let n = s.unicode_len();
    if n <= 11 {
        return None;
    }
    let mut i: usize = 0;
    while i < 11
        invariant
            0 <= i <= 11,
            n == s@.len(),
            n > 11,
            pre@ == "forum_post_"@,
            pre@.len() == 11,
            forall|j: int| 0 <= j < i ==> s@[j] == pre@[j],
        decreases 11 - i,
    {
        if s.get_char(i) != pre.get_char(i) {
            proof {
                assert(s@.subrange(0, 11)[i as int] == s@[i as int]);
            }
            return None;
        }
        i += 1;
    }
    proof {
        assert(s@.subrange(0, 11) =~= pre@);
    }
    let mut val: u64 = 0;
    let mut i: usize = 11;
    while i < n
        invariant
            11 <= i <= n,
            n == s@.len(),
            n > 11,
            "forum_post_"@.len() == 11,
            is_digit_seq(s@.subrange(11, i as int)),
            val == digit_seq_value(s@.subrange(11, i as int)),
        decreases n - i,
    {
        let c = s.get_char(i);
        if !('0' <= c && c <= '9') {
            proof {
                assert(s@.skip(11)[i - 11] == s@[i as int]);
            }
            return None;
        }
        let d: u64 = (c as u8 - '0' as u8) as u64;
        proof {
            assert(s@.subrange(11, i + 1).drop_last() =~= s@.subrange(11, i as int));
            assert(s@.subrange(11, i + 1).last() == s@[i as int]);
            assert(d == digit_value(s@[i as int]));
        }
        if val > (u64::MAX - d) / 10 {
            proof {
                let cap = (u64::MAX - d) as int;
                vstd::arithmetic::div_mod::lemma_fundamental_div_mod(cap, 10);
                assert(val * 10 + d > u64::MAX);
                lemma_digit_seq_value_prefix(s@.skip(11), i + 1 - 11);
                assert(s@.skip(11).take(i + 1 - 11) =~= s@.subrange(11, i + 1));
                assert(digit_seq_value(s@.skip(11)) > u64::MAX);
            }
            return None;
        }
        val = val * 10 + d;
        i += 1;
    }
    proof {
        assert(s@.subrange(11, n as int) =~= s@.skip(11));
        assert(post_localpart_pattern(s@));
    }
    Some(val)
}

/// Encoding a post id and decoding the result always round-trips.
pub proof fn lemma_post_round_trip(n: u64)
    ensures
        spec_decode_post(post_localpart(n as nat)) == Some(n),
{
    reveal_strlit("forum_post_");
    lemma_decimal_digits_wf(n as nat);
    let s = post_localpart(n as nat);
    assert(s.subrange(0, 11) =~= "forum_post_"@);
    assert(s.skip(11) =~= decimal_digits(n as nat));
}

// ---------------------------------------------------------------------------
// Full aliases: `#<localpart>:corepaper.org`
// ---------------------------------------------------------------------------

/// The full room alias for post id `n`.
pub open spec fn post_alias(n: nat) -> Seq<char> {
    "#"@ + post_localpart(n) + ":corepaper.org"@
}

/// What decoding a full alias yields: it must carry the leading `#`, the
/// home-server suffix, and a matching localpart in between.
pub open spec fn spec_decode_post_alias(s: Seq<char>) -> Option<u64> {
    if s.len() >= 15 && s.subrange(0, 1) == "#"@ && s.subrange(s.len() - 14, s.len() as int)
        == ":corepaper.org"@ {
        spec_decode_post(s.subrange(1, s.len() - 14))
    } else {
        None
    }
}

/// Encodes a post id as its full room alias.
pub fn encode_post_alias(id: u64) -> (r: String)
    ensures
        r@ == post_alias(id as nat),
{
    let mut s = String::from_str("#");
    let localpart = encode_post(id);
    s.append(localpart.as_str());
    s.append(":corepaper.org");
    proof {
        assert(s@ =~= post_alias(id as nat));
    }
    s
}

/// Checks that the last 14 characters of `s` are `:corepaper.org`.
fn has_server_suffix(s: &str, n: usize) -> (r: bool)
    requires
        n == s@.len(),
        n >= 14,
    ensures
        r == (s@.subrange(n - 14, n as int) == ":corepaper.org"@),
{
    let suf = ":corepaper.org";
    proof {
        reveal_strlit(":corepaper.org");
    }
    let mut i: usize = 0;
    while i < 14
        invariant
            0 <= i <= 14,
            n == s@.len(),
            n >= 14,
            suf@ == ":corepaper.org"@,
            suf@.len() == 14,
            forall|j: int| 0 <= j < i ==> s@[n - 14 + j] == suf@[j],
        decreases 14 - i,
    {
        if s.get_char(n - 14 + i) != suf.get_char(i) {
            proof {
                assert(s@.subrange(n - 14, n as int)[i as int] == s@[n - 14 + i]);
            }
            return false;
        }
        i += 1;
    }
    proof {
        assert(s@.subrange(n - 14, n as int) =~= suf@);
    }
    true
}

/// Parses a full `#forum_post_<digits>:corepaper.org` alias into a post id.
pub fn decode_post_alias(s: &str) -> (r: Option<u64>)
    ensures
        r == spec_decode_post_alias(s@),
{
    proof {
        reveal_strlit("#");
        reveal_strlit(":corepaper.org");
    }
    let n = s.unicode_len();
    if n < 15 {
        return None;
    }
    if s.get_char(0) != '#' {
        proof {
            assert(s@.subrange(0, 1)[0] == s@[0]);
            assert("#"@[0] == '#');
        }
        return None;
    }
    if !has_server_suffix(s, n) {
        return None;
    }
    let middle = s.substring_char(1, n - 14);
    proof {
        assert(s@.subrange(0, 1) =~= seq![s@[0]]);
        assert(s@.subrange(0, 1) =~= "#"@);
    }
    decode_post(middle)
}

/// Round trip at the full-alias level: the alias of a post id always decodes
/// back to that id.
pub proof fn lemma_post_alias_round_trip(n: u64)
    ensures
        spec_decode_post_alias(post_alias(n as nat)) == Some(n),
{
    reveal_strlit("#");
    reveal_strlit(":corepaper.org");
    reveal_strlit("forum_post_");
    lemma_decimal_digits_wf(n as nat);
    lemma_post_round_trip(n);
    let s = post_alias(n as nat);
    assert(s.subrange(0, 1) =~= "#"@);
    assert(s.subrange(s.len() - 14, s.len() as int) =~= ":corepaper.org"@);
    assert(s.subrange(1, s.len() - 14) =~= post_localpart(n as nat));
}

// ---------------------------------------------------------------------------
// Category aliases: `#forum-<slug>:corepaper.org`
// ---------------------------------------------------------------------------

/// The full room alias for the category with local id `slug`.
pub open spec fn category_alias(slug: Seq<char>) -> Seq<char> {
    "#forum-"@ + slug + ":corepaper.org"@
}

/// Whether `s` matches `#forum-<slug>:corepaper.org` with a non-empty slug.
/// The slug is any run of characters other than a line break, as in the
/// classifier's pattern for category rooms.
pub open spec fn category_alias_pattern(s: Seq<char>) -> bool {
    &&& s.len() >= 22
    &&& s.subrange(0, 7) == "#forum-"@
    &&& s.subrange(s.len() - 14, s.len() as int) == ":corepaper.org"@
    &&& forall|i: int| 7 <= i < s.len() - 14 ==> #[trigger] s[i] != '\n'
}

/// The slug carried by a matching category alias.
pub open spec fn category_alias_slug(s: Seq<char>) -> Seq<char> {
    s.subrange(7, s.len() - 14)
}

pub open spec fn spec_decode_category_alias(s: Seq<char>) -> Option<Seq<char>> {
    if category_alias_pattern(s) {
        Some(category_alias_slug(s))
    } else {
        None
    }
}

/// Encodes a category local id as its full room alias.
pub fn encode_category(slug: &str) -> (r: String)
    ensures
        r@ == category_alias(slug@),
{
    let mut s = String::from_str("#forum-");
    s.append(slug);
    s.append(":corepaper.org");
    proof {
        assert(s@ =~= category_alias(slug@));
    }
    s
}

/// Parses a full `#forum-<slug>:corepaper.org` alias into the category's
/// local id. Aliases of other rooms — the top-level space, post rooms with
/// their underscore prefix, anything on another server — yield `None`.
pub fn decode_category_alias(s: &str) -> (r: Option<String>)
    ensures
        match r {
            Some(slug) => spec_decode_category_alias(s@) == Some(slug@),
            None => spec_decode_category_alias(s@) is None,
        },
{
    let pre = "#forum-";
    proof {
        reveal_strlit("#forum-");
        reveal_strlit(":corepaper.org");
    }
    let n = s.unicode_len();
    if n < 22 {
        return None;
    }
    let mut i: usize = 0;
    while i < 7
        invariant
            0 <= i <= 7,
            n == s@.len(),
            n >= 22,
            pre@ == "#forum-"@,
            pre@.len() == 7,
            forall|j: int| 0 <= j < i ==> s@[j] == pre@[j],
        decreases 7 - i,
    {
        if s.get_char(i) != pre.get_char(i) {
            proof {
                assert(s@.subrange(0, 7)[i as int] == s@[i as int]);
            }
            return None;
        }
        i += 1;
    }
    proof {
        assert(s@.subrange(0, 7) =~= pre@);
    }
    if !has_server_suffix(s, n) {
        return None;
    }
    let mut i: usize = 7;
    while i < n - 14
        invariant
            7 <= i <= n - 14,
            n == s@.len(),
            n >= 22,
            forall|j: int| 7 <= j < i ==> #[trigger] s@[j] != '\n',
        decreases n - 14 - i,
    {
        if s.get_char(i) == '\n' {
            return None;
        }
        i += 1;
    }
    let slug = s.substring_char(7, n - 14);
    Some(String::from_str(slug))
}

/// Round trip for category aliases: the alias built from a slug decodes back
/// to that slug, for every non-empty slug without a line break.
pub proof fn lemma_category_alias_round_trip(slug: Seq<char>)
    requires
        slug.len() > 0,
        forall|i: int| 0 <= i < slug.len() ==> #[trigger] slug[i] != '\n',
    ensures
        spec_decode_category_alias(category_alias(slug)) == Some(slug),
{
    reveal_strlit("#forum-");
    reveal_strlit(":corepaper.org");
    let s = category_alias(slug);
    assert(s.subrange(0, 7) =~= "#forum-"@);
    assert(s.subrange(s.len() - 14, s.len() as int) =~= ":corepaper.org"@);
    assert(forall|i: int| 7 <= i < s.len() - 14 ==> #[trigger] s[i] == slug[i - 7]);
    assert(category_alias_slug(s) =~= slug);
}

/// The alias of the top-level space room that groups the category rooms.
pub fn toplevel_space_alias() -> (r: &'static str)
    ensures
        r@ == "#forum:corepaper.org"@,
{
    "#forum:corepaper.org"
}

// ---------------------------------------------------------------------------
// Impersonated-author identity: `forum_user_<name>` and full user ids
// ---------------------------------------------------------------------------

/// The account localpart under which comments by `username` are attributed.
pub open spec fn comment_user_localpart(username: Seq<char>) -> Seq<char> {
    "forum_user_"@ + username
}

pub fn encode_comment_user(username: &str) -> (r: String)
    ensures
        r@ == comment_user_localpart(username@),
{
    let mut s = String::from_str("forum_user_");
    s.append(username);
    s
}

/// The full user id of the account with the given localpart.
pub open spec fn user_id_of_localpart(localpart: Seq<char>) -> Seq<char> {
    "@"@ + localpart + ":corepaper.org"@
}

pub fn encode_user_id(localpart: &str) -> (r: String)
    ensures
        r@ == user_id_of_localpart(localpart@),
{
    let mut s = String::from_str("@");
    s.append(localpart);
    s.append(":corepaper.org");
    proof {
        assert(s@ =~= user_id_of_localpart(localpart@));
    }
    s
}

} // verus!
