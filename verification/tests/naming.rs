use channel_bridge::naming::{
    channel_short_name, clean_char, clean_name, decimal, guild_buffer_id, self_nick,
};

#[test]
fn clean_char_lowercases_ascii_letters() {
    assert_eq!(clean_char('A'), 'a');
    assert_eq!(clean_char('Z'), 'z');
    assert_eq!(clean_char('m'), 'm');
}

#[test]
fn clean_char_keeps_digits_dash_and_underscore() {
    assert_eq!(clean_char('0'), '0');
    assert_eq!(clean_char('9'), '9');
    assert_eq!(clean_char('-'), '-');
    assert_eq!(clean_char('_'), '_');
}

#[test]
fn clean_char_replaces_other_ascii() {
    assert_eq!(clean_char(' '), '_');
    assert_eq!(clean_char('.'), '_');
    assert_eq!(clean_char('#'), '_');
    assert_eq!(clean_char('@'), '_');
    assert_eq!(clean_char('['), '_');
    assert_eq!(clean_char('`'), '_');
    assert_eq!(clean_char('{'), '_');
    assert_eq!(clean_char('/'), '_');
    assert_eq!(clean_char(':'), '_');
    assert_eq!(clean_char('\u{7f}'), '_');
    assert_eq!(clean_char('\n'), '_');
}

#[test]
fn clean_char_keeps_what_is_not_ascii() {
    assert_eq!(clean_char('é'), 'é');
    assert_eq!(clean_char('É'), 'É');
    assert_eq!(clean_char('\u{80}'), '\u{80}');
    assert_eq!(clean_char('日'), '日');
}

#[test]
fn clean_name_of_plain_names() {
    assert_eq!(clean_name("bob"), "bob");
    assert_eq!(clean_name("al ice"), "al_ice");
    assert_eq!(clean_name("General Chat"), "general_chat");
    assert_eq!(clean_name("a.b.c"), "a_b_c");
    assert_eq!(clean_name(""), "");
}

#[test]
fn clean_name_keeps_the_number_of_characters() {
    let name = "Über Cool.Guild #1";
    let cleaned = clean_name(name);
    assert_eq!(cleaned, "Über_cool_guild__1");
    assert_eq!(cleaned.chars().count(), name.chars().count());
}

#[test]
fn clean_name_twice_is_clean_name_once() {
    let once = clean_name("Rust Lang / Help.Desk");
    assert_eq!(clean_name(&once), once);
    assert!(!once.contains('.'));
    assert!(!once.contains(' '));
}

#[test]
fn decimal_of_small_numbers() {
    assert_eq!(decimal(0), "0");
    assert_eq!(decimal(7), "7");
    assert_eq!(decimal(9), "9");
    assert_eq!(decimal(10), "10");
    assert_eq!(decimal(42), "42");
    assert_eq!(decimal(100), "100");
    assert_eq!(decimal(1009), "1009");
}

#[test]
fn decimal_of_large_numbers() {
    assert_eq!(decimal(381880193251409931), "381880193251409931");
    assert_eq!(decimal(u64::MAX), "18446744073709551615");
    assert_eq!(decimal(u64::MAX), u64::MAX.to_string());
}

#[test]
fn guild_buffer_id_joins_cleaned_names() {
    assert_eq!(guild_buffer_id("My Guild", "General"), "discord.my_guild.general");
    assert_eq!(guild_buffer_id("a.b", "c d"), "discord.a_b.c_d");
    assert_eq!(guild_buffer_id("", ""), "discord..");
}

#[test]
fn same_channel_same_identifier() {
    assert_eq!(guild_buffer_id("Guild", "chan"), guild_buffer_id("Guild", "chan"));
    assert_eq!(guild_buffer_id("GUILD", "Chan"), guild_buffer_id("guild", "chan"));
}

#[test]
fn short_name_and_nick_prefixes() {
    assert_eq!(channel_short_name("general"), "#general");
    assert_eq!(channel_short_name(""), "#");
    assert_eq!(self_nick("carol"), "@carol");
    assert_eq!(self_nick("Al Ice"), "@Al Ice");
}

#[test]
fn identifiers_tell_cleaned_names_apart() {
    assert_ne!(guild_buffer_id("a.b", "c"), guild_buffer_id("a", "b.c"));
    assert_ne!(guild_buffer_id("a", "bc"), guild_buffer_id("ab", "c"));
    assert_ne!(guild_buffer_id("", "a"), guild_buffer_id("a", ""));
    assert_eq!(guild_buffer_id("a b", "c"), guild_buffer_id("a_b", "c"));
}

#[test]
fn decimal_reads_back() {
    for n in [0u64, 1, 9, 10, 99, 100, 12345, 4294967296, u64::MAX - 1, u64::MAX] {
        let text = decimal(n);
        assert_eq!(text.parse::<u64>(), Ok(n));
        assert!(text.chars().all(|c| c.is_ascii_digit()));
        assert_eq!(text.starts_with('0'), n == 0);
    }
}
