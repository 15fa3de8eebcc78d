//! Names and identifiers that a channel presents to the host interface.

use crate::outside::push_char;
use vstd::prelude::*;

verus! {

/// The character that replaces a separator in a cleaned name.
pub const FILLER: char = '_';

/// One character of a cleaned name: ASCII letters are lower-cased; ASCII
/// digits, `-` and `_` stay; every other ASCII character becomes the filler;
/// characters outside ASCII are kept.
pub open spec fn clean_char_spec(c: char) -> char {
    if 'A' <= c && c <= 'Z' {
        ((c as u8) + 32) as char
    } else if ('a' <= c && c <= 'z') || ('0' <= c && c <= '9') || c == '-' || c == '_' {
        c
    } else if (c as u32) < 128 {
        FILLER
    } else {
        c
    }
}

/// A cleaned name: every character cleaned, in place.
pub open spec fn clean_name_spec(name: Seq<char>) -> Seq<char> {
    name.map_values(|c: char| clean_char_spec(c))
}

/// The decimal digit `d`, for `d` below ten.
pub open spec fn digit_spec(d: nat) -> char
    recommends
        d < 10,
{
    (48 + d) as u8 as char
}

/// A number in decimal, without leading zeros.
pub open spec fn decimal_spec(n: nat) -> Seq<char>
    decreases n,
{
    if n < 10 {
        seq![digit_spec(n)]
    } else {
        decimal_spec(n / 10).push(digit_spec(n % 10))
    }
}

/// The parts in order, with `sep` between neighbours.
pub open spec fn join_spec(parts: Seq<Seq<char>>, sep: Seq<char>) -> Seq<char>
    decreases parts.len(),
{
    if parts.len() == 0 {
        Seq::empty()
    } else if parts.len() == 1 {
        parts[0]
    } else {
        join_spec(parts.drop_last(), sep) + sep + parts.last()
    }
}

/// The texts that a list of strings holds.
pub open spec fn texts(names: Seq<String>) -> Seq<Seq<char>> {
    names.map_values(|s: String| s@)
}

/// Identifier of the buffer of a guild channel.
pub open spec fn guild_buffer_id_spec(guild_name: Seq<char>, channel_name: Seq<char>) -> Seq<char> {
    "discord."@ + clean_name_spec(guild_name) + "."@ + clean_name_spec(channel_name)
}

/// Short name of the buffer of a guild channel.
pub open spec fn channel_short_name_spec(channel_name: Seq<char>) -> Seq<char> {
    "#"@ + channel_name
}

/// The nickname under which the local user appears.
pub open spec fn self_nick_spec(user_name: Seq<char>) -> Seq<char> {
    "@"@ + user_name
}

/// Display name of a direct-message buffer.
pub open spec fn dm_short_name_spec(recipients: Seq<Seq<char>>) -> Seq<char> {
    "DM with "@ + join_spec(recipients, ", "@)
}

/// Identifier of a direct-message buffer.
pub open spec fn dm_buffer_id_spec(recipients: Seq<Seq<char>>) -> Seq<char> {
    "discord.dm."@ + join_spec(recipients.map_values(|n: Seq<char>| clean_name_spec(n)), "."@)
}

pub fn clean_char(c: char) -> (r: char)
    ensures
        r == clean_char_spec(c),
{
    if 'A' <= c && c <= 'Z' {
        ((c as u8) + 32) as char
    } else if ('a' <= c && c <= 'z') || ('0' <= c && c <= '9') || c == '-' || c == '_' {
        c
    } else if (c as u32) < 128 {
        FILLER
    } else {
        c
    }
}

/// Appends the cleaned form of `name` to `out`.
pub fn push_clean(out: &mut String, name: &str)
    ensures
        final(out)@ == old(out)@ + clean_name_spec(name@),
{
    let ghost before = out@;
    for c in it: name.chars()
        invariant
            it.seq() == name@,
            out@ == before + clean_name_spec(name@.subrange(0, it.index() as int)),
    {
        push_char(out, clean_char(c));
        assert(name@.subrange(0, it.index() + 1) == name@.subrange(0, it.index() as int).push(c));
    }
    assert(name@.subrange(0, name@.len() as int) == name@);
}

pub fn clean_name(name: &str) -> (r: String)
    ensures
        r@ == clean_name_spec(name@),
{
    let mut out = String::new();
    push_clean(&mut out, name);
    out
}

/// Appends `n` in decimal to `out`.
pub fn push_decimal(out: &mut String, n: u64)
    ensures
        final(out)@ == old(out)@ + decimal_spec(n as nat),
    decreases n,
{
    if n >= 10 {
        push_decimal(out, n / 10);
    }
    let d: u8 = (n % 10) as u8;
    push_char(out, (48u8 + d) as char);
}

pub fn decimal(n: u64) -> (r: String)
    ensures
        r@ == decimal_spec(n as nat),
{
    let mut out = String::new();
    push_decimal(&mut out, n);
    out
}

pub fn guild_buffer_id(guild_name: &str, channel_name: &str) -> (r: String)
    ensures
        r@ == guild_buffer_id_spec(guild_name@, channel_name@),
{
    let mut out = String::from_str("discord.");
    push_clean(&mut out, guild_name);
    out.append(".");
    push_clean(&mut out, channel_name);
    out
}

pub fn channel_short_name(channel_name: &str) -> (r: String)
    ensures
        r@ == channel_short_name_spec(channel_name@),
{
    let mut out = String::from_str("#");
    out.append(channel_name);
    out
}

pub fn self_nick(user_name: &str) -> (r: String)
    ensures
        r@ == self_nick_spec(user_name@),
{
    let mut out = String::from_str("@");
    out.append(user_name);
    out
}

/// A cleaned name has as many characters as the name, and none of them is a
/// dot, a blank or an upper-case ASCII letter: the dots of an identifier are
/// those that join its parts.
pub proof fn lemma_clean_name_is_clean(name: Seq<char>)
    ensures
        clean_name_spec(name).len() == name.len(),
        forall|i: int|
            0 <= i < name.len() ==> {
                let c = #[trigger] clean_name_spec(name)[i];
                c != '.' && c != ' ' && !('A' <= c && c <= 'Z')
            },
{
}

/// Cleaning a cleaned name changes nothing.
pub proof fn law_clean_name_is_idempotent(name: Seq<char>)
    ensures
        clean_name_spec(clean_name_spec(name)) == clean_name_spec(name),
{
    assert(clean_name_spec(clean_name_spec(name)) =~= clean_name_spec(name));
}

/// The number that a decimal digit stands for.
pub open spec fn digit_value(c: char) -> nat {
    (c as u8 - 48) as nat
}

/// The number that a text of decimal digits stands for.
pub open spec fn decimal_value(digits: Seq<char>) -> nat
    decreases digits.len(),
{
    if digits.len() == 0 {
        0
    } else {
        decimal_value(digits.drop_last()) * 10 + digit_value(digits.last())
    }
}

/// A number in decimal reads back as the number. It is written in digits
/// only, at least one, and starts with a zero only if it is zero.
pub proof fn law_decimal_reads_back(n: nat)
    ensures
        decimal_value(decimal_spec(n)) == n,
        decimal_spec(n).len() > 0,
        forall|i: int|
            0 <= i < decimal_spec(n).len() ==> '0' <= #[trigger] decimal_spec(n)[i] <= '9',
        decimal_spec(n)[0] == '0' <==> n == 0,
    decreases n,
{
    let digits = decimal_spec(n);
    assert(digit_value(digit_spec(n % 10)) == n % 10);
    if n < 10 {
        assert(digits.drop_last() =~= Seq::<char>::empty());
        assert(decimal_value(Seq::<char>::empty()) == 0);
        assert(digits.last() == digit_spec(n));
    } else {
        law_decimal_reads_back(n / 10);
        assert(digits.drop_last() =~= decimal_spec(n / 10));
        assert(digits.last() == digit_spec(n % 10));
        assert(digits[0] == decimal_spec(n / 10)[0]);
    }
}

/// Whether a text is free of dots.
pub open spec fn dot_free(text: Seq<char>) -> bool {
    forall|i: int| 0 <= i < text.len() ==> text[i] != '.'
}

/// A cleaned name is free of dots.
pub proof fn lemma_clean_name_is_dot_free(name: Seq<char>)
    ensures
        dot_free(clean_name_spec(name)),
{
    lemma_clean_name_is_clean(name);
}

/// Two texts of the form `head . tail` with dot-free tails are equal only
/// if their heads are equal and their tails are.
proof fn lemma_split_at_last_dot(h1: Seq<char>, t1: Seq<char>, h2: Seq<char>, t2: Seq<char>)
    requires
        dot_free(t1),
        dot_free(t2),
        h1 + seq!['.'] + t1 == h2 + seq!['.'] + t2,
    ensures
        h1 == h2,
        t1 == t2,
{
    let a = h1 + seq!['.'] + t1;
    let b = h2 + seq!['.'] + t2;
    assert(a.len() == h1.len() + 1 + t1.len());
    assert(b.len() == h2.len() + 1 + t2.len());
    assert(a[h1.len() as int] == '.');
    assert(b[h2.len() as int] == '.');
    if h1.len() < h2.len() {
        assert(b[h2.len() as int] == a[h2.len() as int]);
        assert(a[h2.len() as int] == t1[h2.len() - h1.len() - 1]);
        assert(false);
    }
    if h2.len() < h1.len() {
        assert(a[h1.len() as int] == b[h1.len() as int]);
        assert(b[h1.len() as int] == t2[h1.len() - h2.len() - 1]);
        assert(false);
    }
    assert(h1 =~= h2) by {
        assert forall|i: int| 0 <= i < h1.len() implies h1[i] == h2[i] by {
            assert(a[i] == h1[i]);
            assert(b[i] == h2[i]);
        }
    }
    assert(t1 =~= t2) by {
        assert forall|i: int| 0 <= i < t1.len() implies t1[i] == t2[i] by {
            assert(a[h1.len() + 1 + i] == t1[i]);
            assert(b[h2.len() + 1 + i] == t2[i]);
        }
    }
}

/// Two texts with a common prefix are equal only if the rests are.
proof fn lemma_cancel_prefix(prefix: Seq<char>, r1: Seq<char>, r2: Seq<char>)
    requires
        prefix + r1 == prefix + r2,
    ensures
        r1 == r2,
{
    let a = prefix + r1;
    let b = prefix + r2;
    assert(a.len() == prefix.len() + r1.len());
    assert(b.len() == prefix.len() + r2.len());
    assert(r1 =~= r2) by {
        assert forall|i: int| 0 <= i < r1.len() implies r1[i] == r2[i] by {
            assert(a[prefix.len() + i] == r1[i]);
            assert(b[prefix.len() + i] == r2[i]);
        }
    }
}

/// Dot-free parts, at least one, can be read back from their join by dots:
/// two such lists with the same join are the same list.
pub proof fn lemma_join_by_dots_is_unambiguous(p1: Seq<Seq<char>>, p2: Seq<Seq<char>>)
    requires
        p1.len() > 0,
        p2.len() > 0,
        forall|i: int| 0 <= i < p1.len() ==> dot_free(#[trigger] p1[i]),
        forall|i: int| 0 <= i < p2.len() ==> dot_free(#[trigger] p2[i]),
        join_spec(p1, seq!['.']) == join_spec(p2, seq!['.']),
    ensures
        p1 == p2,
    decreases p1.len(),
{
    let dot = seq!['.'];
    if p1.len() == 1 && p2.len() == 1 {
        assert(p1 =~= p2);
    } else if p1.len() == 1 {
        let j = join_spec(p2.drop_last(), dot);
        assert(join_spec(p2, dot) == j + dot + p2.last());
        assert((j + dot + p2.last())[j.len() as int] == '.');
        assert(false);
    } else if p2.len() == 1 {
        let j = join_spec(p1.drop_last(), dot);
        assert(join_spec(p1, dot) == j + dot + p1.last());
        assert((j + dot + p1.last())[j.len() as int] == '.');
        assert(false);
    } else {
        let j1 = join_spec(p1.drop_last(), dot);
        let j2 = join_spec(p2.drop_last(), dot);
        lemma_split_at_last_dot(j1, p1.last(), j2, p2.last());
        lemma_join_by_dots_is_unambiguous(p1.drop_last(), p2.drop_last());
        assert(p1 =~= p1.drop_last().push(p1.last()));
        assert(p2 =~= p2.drop_last().push(p2.last()));
    }
}

/// The identifier of a guild channel tells the cleaned names apart: two
/// channels get the same identifier only if the cleaned names of their
/// guilds agree and those of the channels do.
pub proof fn law_guild_buffer_id_is_unambiguous(
    guild1: Seq<char>,
    channel1: Seq<char>,
    guild2: Seq<char>,
    channel2: Seq<char>,
)
    requires
        guild_buffer_id_spec(guild1, channel1) == guild_buffer_id_spec(guild2, channel2),
    ensures
        clean_name_spec(guild1) == clean_name_spec(guild2),
        clean_name_spec(channel1) == clean_name_spec(channel2),
{
    reveal_strlit(".");
    let prefix = "discord."@;
    let dot = seq!['.'];
    assert("."@ =~= dot);
    let (g1, c1) = (clean_name_spec(guild1), clean_name_spec(channel1));
    let (g2, c2) = (clean_name_spec(guild2), clean_name_spec(channel2));
    lemma_clean_name_is_dot_free(guild1);
    lemma_clean_name_is_dot_free(guild2);
    lemma_clean_name_is_dot_free(channel1);
    lemma_clean_name_is_dot_free(channel2);
    assert(prefix + g1 + dot + c1 =~= prefix + (g1 + dot + c1));
    assert(prefix + g2 + dot + c2 =~= prefix + (g2 + dot + c2));
    lemma_cancel_prefix(prefix, g1 + dot + c1, g2 + dot + c2);
    lemma_split_at_last_dot(g1, c1, g2, c2);
}

/// The identifier of a direct-message channel tells the cleaned names of
/// the recipients apart: two channels, each with a recipient, get the same
/// identifier only if the cleaned names of their recipients agree, one by
/// one.
pub proof fn law_dm_buffer_id_is_unambiguous(r1: Seq<Seq<char>>, r2: Seq<Seq<char>>)
    requires
        r1.len() > 0,
        r2.len() > 0,
        dm_buffer_id_spec(r1) == dm_buffer_id_spec(r2),
    ensures
        r1.map_values(|n: Seq<char>| clean_name_spec(n)) == r2.map_values(
            |n: Seq<char>| clean_name_spec(n),
        ),
{
    reveal_strlit(".");
    let dot = seq!['.'];
    assert("."@ =~= dot);
    let p1 = r1.map_values(|n: Seq<char>| clean_name_spec(n));
    let p2 = r2.map_values(|n: Seq<char>| clean_name_spec(n));
    assert forall|i: int| 0 <= i < p1.len() implies dot_free(#[trigger] p1[i]) by {
        lemma_clean_name_is_dot_free(r1[i]);
    }
    assert forall|i: int| 0 <= i < p2.len() implies dot_free(#[trigger] p2[i]) by {
        lemma_clean_name_is_dot_free(r2[i]);
    }
    lemma_cancel_prefix("discord.dm."@, join_spec(p1, dot), join_spec(p2, dot));
    lemma_join_by_dots_is_unambiguous(p1, p2);
}

} // verus!
