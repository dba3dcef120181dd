//! Configuration: the monitored services and the settings read from the environment.

use vstd::prelude::*;
use crate::text::{chars_of, decimal, digit_char};

verus! {

/// One monitored service, as listed in the services file.
#[derive(Clone, Debug)]
pub struct ServiceConfig {
    pub id: String,
    pub name: String,
    pub url: String,
    pub category: String,
    pub check: String,
}

/// Settings of the whole board.
#[derive(Clone, Debug)]
pub struct AppConfig {
    pub port: u16,
    pub db_path: String,
    pub check_interval_secs: u64,
    pub telegram_bot_token: Option<String>,
    pub telegram_chat_id: Option<String>,
    pub admin_token: Option<String>,
    pub services_config_path: String,
    pub site_title: String,
    pub site_url: String,
    pub footer_text: String,
}

/// Whether a character is an ASCII decimal digit.
pub open spec fn is_digit(c: char) -> bool {
    48 <= (c as u32) <= 57
}

/// The value of a string of decimal digits, most significant first.
pub open spec fn digits_value(s: Seq<char>) -> nat
    decreases s.len(),
{
    if s.len() == 0 {
        0
    } else {
        digits_value(s.drop_last()) * 10 + (((s.last() as u32) as int) - 48) as nat
    }
}

/// What follows an optional leading '+'.
pub open spec fn unsigned_digits_part(s: Seq<char>) -> Seq<char> {
    if s.len() > 0 && s[0] == '+' {
        s.skip(1)
    } else {
        s
    }
}

/// Parsing of an unsigned integer whose largest value is `max`, as `str::parse`
/// does it: an optional '+' and then one or more decimal digits, and nothing
/// else; `None` for any other text or for a value above `max`.
pub open spec fn parse_unsigned(s: Seq<char>, max: nat) -> Option<nat> {
    let body = unsigned_digits_part(s);
    if body.len() > 0 && (forall|i: int| 0 <= i < body.len() ==> is_digit(#[trigger] body[i]))
        && digits_value(body) <= max {
        Some(digits_value(body))
    } else {
        None
    }
}

/// A numeric setting: its parsed value when it is set and parses, else the default.
pub open spec fn number_setting(value: Option<Seq<char>>, max: nat, default: nat) -> nat {
    match value {
        Some(s) => match parse_unsigned(s, max) {
            Some(v) => v,
            None => default,
        },
        None => default,
    }
}

/// A text setting: its value when it is set, else the default.
pub open spec fn text_setting(value: Option<Seq<char>>, default: Seq<char>) -> Seq<char> {
    match value {
        Some(s) => s,
        None => default,
    }
}

/// An optional secret: kept only when it is set and not empty.
pub open spec fn secret_setting(value: Option<Seq<char>>) -> Option<Seq<char>> {
    match value {
        Some(s) => if s.len() > 0 { Some(s) } else { None },
        None => None,
    }
}

proof fn lemma_digits_value_push(s: Seq<char>, c: char)
    requires
        is_digit(c),
    ensures
        digits_value(s.push(c)) == digits_value(s) * 10 + (((c as u32) as int) - 48),
        digits_value(s.push(c)) >= digits_value(s),
{
    assert(s.push(c).drop_last() =~= s);
}

/// Parses an unsigned decimal integer no larger than `max`, as `str::parse`
/// does for an unsigned type.
pub fn parse_unsigned_text(s: &str, max: u64) -> (res: Option<u64>)
    ensures
        match parse_unsigned(s@, max as nat) {
            Some(v) => res == Some(v as u64),
            None => res is None,
        },
{
    let chars = chars_of(s);
    let n = chars.len();
    let start: usize = if n > 0 && chars[0] == '+' { 1 } else { 0 };
    let ghost body = unsigned_digits_part(s@);
    assert(body =~= chars@.subrange(start as int, n as int));
    if start == n {
        return None;
    }
    let mut acc: u64 = 0;
    let mut over = false;
    let mut i = start;
    while i < n
        invariant
            start <= i <= n,
            n == chars@.len(),
            chars@ == s@,
            body == chars@.subrange(start as int, n as int),
            body == unsigned_digits_part(s@),
            forall|j: int| 0 <= j < i - start ==> is_digit(#[trigger] body[j]),
            over ==> digits_value(body.take(i - start)) > max,
            !over ==> acc == digits_value(body.take(i - start)) && acc <= max,
        decreases n - i,
    {
        let c = chars[i];
        let code = c as u32;
        assert(body[i - start] == c);
        if code < 48 || code > 57 {
            assert(!is_digit(body[i - start]));
            assert(parse_unsigned(s@, max as nat) is None);
            return None;
        }
        proof {
            assert(body.take(i + 1 - start) =~= body.take(i - start).push(c));
            lemma_digits_value_push(body.take(i - start), c);
        }
        if !over {
            let next: u128 = (acc as u128) * 10 + ((code - 48) as u128);
            if next > max as u128 {
                over = true;
            } else {
                acc = next as u64;
            }
        }
        i = i + 1;
    }
    assert(body.take(n - start) =~= body);
    if over {
        None
    } else {
        Some(acc)
    }
}

/// The text of an optional setting, or the default.
fn text_or(value: Option<String>, default: &str) -> (res: String)
    ensures
        res@ == text_setting(value.deep_view(), default@),
{
    match value {
        Some(s) => s,
        None => String::from_str(default),
    }
}

/// An optional secret, kept only when not empty.
fn non_empty(value: Option<String>) -> (res: Option<String>)
    ensures
        res.deep_view() == secret_setting(value.deep_view()),
{
    match value {
        Some(s) => {
            if s.as_str().is_empty() {
                None
            } else {
                Some(s)
            }
        },
        None => None,
    }
}

/// Builds the settings from the values of the environment variables `PORT`,
/// `DB_PATH`, `CHECK_INTERVAL_SECS`, `TELEGRAM_BOT_TOKEN`, `TELEGRAM_CHAT_ID`,
/// `ADMIN_TOKEN`, `SERVICES_CONFIG`, `SITE_TITLE`, `SITE_URL` and
/// `FOOTER_TEXT` (`None` where a variable is unset), with their defaults.
pub fn build_app_config(
    port: Option<String>,
    db_path: Option<String>,
    check_interval_secs: Option<String>,
    telegram_bot_token: Option<String>,
    telegram_chat_id: Option<String>,
    admin_token: Option<String>,
    services_config: Option<String>,
    site_title: Option<String>,
    site_url: Option<String>,
    footer_text: Option<String>,
) -> (res: AppConfig)
    ensures
        res.port as nat == number_setting(port.deep_view(), 65535, 3000),
        res.db_path@ == text_setting(db_path.deep_view(), "data/status.db"@),
        res.check_interval_secs as nat == number_setting(check_interval_secs.deep_view(), u64::MAX as nat, 60),
        res.telegram_bot_token.deep_view() == secret_setting(telegram_bot_token.deep_view()),
        res.telegram_chat_id.deep_view() == secret_setting(telegram_chat_id.deep_view()),
        res.admin_token.deep_view() == secret_setting(admin_token.deep_view()),
        res.services_config_path@ == text_setting(services_config.deep_view(), "services.json"@),
        res.site_title@ == text_setting(site_title.deep_view(), "Status Board"@),
        res.site_url@ == text_setting(site_url.deep_view(), ""@),
        res.footer_text@ == text_setting(footer_text.deep_view(), "Powered by Status Board \u{b7} Rust/Axum"@),
{
    let port_value: u16 = match &port {
        Some(s) => match parse_unsigned_text(s.as_str(), 65535) {
            Some(v) => v as u16,
            None => 3000,
        },
        None => 3000,
    };
    let interval: u64 = match &check_interval_secs {
        Some(s) => match parse_unsigned_text(s.as_str(), u64::MAX) {
            Some(v) => v,
            None => 60,
        },
        None => 60,
    };
    AppConfig {
        port: port_value,
        db_path: text_or(db_path, "data/status.db"),
        check_interval_secs: interval,
        telegram_bot_token: non_empty(telegram_bot_token),
        telegram_chat_id: non_empty(telegram_chat_id),
        admin_token: non_empty(admin_token),
        services_config_path: text_or(services_config, "services.json"),
        site_title: text_or(site_title, "Status Board"),
        site_url: text_or(site_url, ""),
        footer_text: text_or(footer_text, "Powered by Status Board \u{b7} Rust/Axum"),
    }
}

proof fn lemma_decimal_is_digits(n: nat)
    ensures
        decimal(n).len() > 0,
        forall|i: int| 0 <= i < decimal(n).len() ==> is_digit(#[trigger] decimal(n)[i]),
        digits_value(decimal(n)) == n,
    decreases n,
{
    if n >= 10 {
        lemma_decimal_is_digits(n / 10);
        let c = digit_char(n % 10);
        assert((c as u32) == 48 + n % 10);
        lemma_digits_value_push(decimal(n / 10), c);
    } else {
        let c = digit_char(n);
        assert((c as u32) == 48 + n);
        assert(decimal(n) =~= Seq::<char>::empty().push(c));
        lemma_digits_value_push(Seq::<char>::empty(), c);
    }
}

/// Law: a number written in decimal, as the board writes numbers, reads back
/// as the same number when it is within the bound.
pub proof fn lemma_parse_reads_decimal(n: nat, max: nat)
    requires
        n <= max,
    ensures
        parse_unsigned(decimal(n), max) == Some(n),
{
    lemma_decimal_is_digits(n);
    assert(decimal(n)[0] != '+') by {
        assert(is_digit(decimal(n)[0]));
    }
    assert(unsigned_digits_part(decimal(n)) == decimal(n));
}

/// Law: a text setting that is set keeps its value exactly, the empty text
/// included; only an unset one takes the default.
pub proof fn lemma_set_text_setting_is_kept(value: Seq<char>, default: Seq<char>)
    ensures
        text_setting(Some(value), default) == value,
        text_setting(None, default) == default,
{
}

} // verus!
