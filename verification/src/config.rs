//! The configuration record, and the settings that it resolves to once the
//! defaults are filled in.

use vstd::prelude::*;
use vstd::string::*;

verus! {

/// The default path of the external tool.
pub const DEFAULT_VPNCMD: &'static str = "vpncmd";

/// The default address of the VPN server.
pub const DEFAULT_SERVER: &'static str = "localhost";

/// The default pacing interval, in milliseconds.
pub const DEFAULT_SLEEP_MILLIS: u64 = 500;

/// What a port-only listen address is bound on: all interfaces.
pub const ANY_INTERFACE: &'static str = "0.0.0.0";

/// One monitored hub, as configured.
#[derive(Clone, Debug, PartialEq, Eq)]
pub struct Hub {
    pub name: Option<String>,
    pub password: Option<String>,
}

/// The configuration record, as loaded: every key but the hub list may be
/// missing.
#[derive(Debug, PartialEq, Eq)]
pub struct Config {
    pub vpncmd: Option<String>,
    pub server: Option<String>,
    pub sleep: Option<String>,
    pub adminpassword: Option<String>,
    pub hubs: Vec<Hub>,
}

/// The configuration with every default filled in.
#[derive(Debug, PartialEq, Eq)]
pub struct Settings {
    /// The path of the external tool.
    pub vpncmd: String,
    /// The address of the VPN server.
    pub server: String,
    /// The pause after each request, in milliseconds.
    pub sleep_millis: u64,
    /// The administrative password.
    pub adminpassword: String,
    /// The names of the monitored hubs, in configuration order.
    pub hubs: Vec<String>,
}

/// An optional text as a mathematical value.
pub open spec fn text_view(text: Option<String>) -> Option<Seq<char>> {
    match text {
        Some(t) => Some(t@),
        None => None,
    }
}

/// A hub as a mathematical value.
pub struct HubView {
    pub name: Option<Seq<char>>,
    pub password: Option<Seq<char>>,
}

/// A configuration record as a mathematical value.
pub struct ConfigView {
    pub vpncmd: Option<Seq<char>>,
    pub server: Option<Seq<char>>,
    pub sleep: Option<Seq<char>>,
    pub adminpassword: Option<Seq<char>>,
    pub hubs: Seq<HubView>,
}

/// Settings as a mathematical value.
pub struct SettingsView {
    pub vpncmd: Seq<char>,
    pub server: Seq<char>,
    pub sleep_millis: u64,
    pub adminpassword: Seq<char>,
    pub hubs: Seq<Seq<char>>,
}

impl View for Hub {
    type V = HubView;

    open spec fn view(&self) -> HubView {
        HubView { name: text_view(self.name), password: text_view(self.password) }
    }
}

impl DeepView for Hub {
    type V = HubView;

    open spec fn deep_view(&self) -> HubView {
        self@
    }
}

impl View for Config {
    type V = ConfigView;

    open spec fn view(&self) -> ConfigView {
        ConfigView {
            vpncmd: text_view(self.vpncmd),
            server: text_view(self.server),
            sleep: text_view(self.sleep),
            adminpassword: text_view(self.adminpassword),
            hubs: self.hubs.deep_view(),
        }
    }
}

impl View for Settings {
    type V = SettingsView;

    open spec fn view(&self) -> SettingsView {
        SettingsView {
            vpncmd: self.vpncmd@,
            server: self.server@,
            sleep_millis: self.sleep_millis,
            adminpassword: self.adminpassword@,
            hubs: self.hubs.deep_view(),
        }
    }
}

/// The character is a decimal digit.
pub open spec fn is_digit(c: char) -> bool {
    48 <= c as u32 <= 57
}

/// The value of a decimal digit.
pub open spec fn digit_value(c: char) -> int {
    c as u32 - 48
}

/// Every character is a decimal digit.
pub open spec fn all_digits(s: Seq<char>) -> bool {
    forall|i: int| 0 <= i < s.len() ==> is_digit(#[trigger] s[i])
}

/// The number that a string of decimal digits denotes.
pub open spec fn digits_value(s: Seq<char>) -> int
    decreases s.len(),
{
    if s.len() == 0 {
        0
    } else {
        digits_value(s.drop_last()) * 10 + digit_value(s.last())
    }
}

/// The text without one leading plus sign, if it has one.
pub open spec fn unsigned_part(s: Seq<char>) -> Seq<char> {
    if s.len() > 0 && s[0] == '+' {
        s.drop_first()
    } else {
        s
    }
}

/// The number that a text denotes: an optional plus sign followed by one or
/// more decimal digits and nothing else, with a value that fits 64 bits.
/// Anything else denotes no number.
pub open spec fn parse_decimal(s: Seq<char>) -> Option<u64> {
    let digits = unsigned_part(s);
    if digits.len() > 0 && all_digits(digits) && digits_value(digits) <= u64::MAX {
        Some(digits_value(digits) as u64)
    } else {
        None
    }
}

/// The pacing interval that a configured `sleep` stands for: its number of
/// milliseconds, or the default where it is missing or denotes no number.
pub open spec fn pacing_of(sleep: Option<Seq<char>>) -> u64 {
    match sleep {
        Some(text) => match parse_decimal(text) {
            Some(millis) => millis,
            None => DEFAULT_SLEEP_MILLIS,
        },
        None => DEFAULT_SLEEP_MILLIS,
    }
}

/// The text, or the default where it is missing.
pub open spec fn or_default(text: Option<Seq<char>>, default: Seq<char>) -> Seq<char> {
    match text {
        Some(t) => t,
        None => default,
    }
}

/// The names of the hubs, a missing name being the empty name.
pub open spec fn hub_names(hubs: Seq<HubView>) -> Seq<Seq<char>> {
    Seq::new(hubs.len(), |i: int| or_default(hubs[i].name, Seq::empty()))
}

/// The settings that a configuration record resolves to.
pub open spec fn settings_of(config: ConfigView) -> SettingsView {
    SettingsView {
        vpncmd: or_default(config.vpncmd, DEFAULT_VPNCMD@),
        server: or_default(config.server, DEFAULT_SERVER@),
        sleep_millis: pacing_of(config.sleep),
        adminpassword: or_default(config.adminpassword, Seq::empty()),
        hubs: hub_names(config.hubs),
    }
}

/// The address to bind for a configured listen address: a value that begins
/// with a colon is a port on all interfaces.
pub open spec fn bind_text(listen: Seq<char>) -> Seq<char> {
    if listen.len() > 0 && listen[0] == ':' {
        ANY_INTERFACE@ + listen
    } else {
        listen
    }
}

/// A string of digits denotes a number that is not negative.
pub proof fn lemma_digits_value_nonnegative(s: Seq<char>)
    requires
        all_digits(s),
    ensures
        0 <= digits_value(s),
    decreases s.len(),
{
    if s.len() > 0 {
        assert forall|i: int| 0 <= i < s.drop_last().len() implies is_digit(
            #[trigger] s.drop_last()[i],
        ) by {
            assert(s.drop_last()[i] == s[i]);
        }
        lemma_digits_value_nonnegative(s.drop_last());
        assert(is_digit(s[s.len() - 1]));
    }
}

/// A prefix of a string of digits denotes no more than the whole string.
pub proof fn lemma_digits_value_prefix(s: Seq<char>, k: int)
    requires
        all_digits(s),
        0 <= k <= s.len(),
    ensures
        digits_value(s.take(k)) <= digits_value(s),
    decreases s.len(),
{
    if k == s.len() {
        assert(s.take(k) =~= s);
    } else {
        let front = s.drop_last();
        assert forall|i: int| 0 <= i < front.len() implies is_digit(#[trigger] front[i]) by {
            assert(front[i] == s[i]);
        }
        assert(front.take(k) =~= s.take(k));
        lemma_digits_value_prefix(front, k);
        lemma_digits_value_nonnegative(front);
        assert(is_digit(s[s.len() - 1]));
    }
}

/// Reads a number of milliseconds: an optional plus sign followed by decimal
/// digits. Returns nothing for any other text, and for a number that does not
/// fit 64 bits.
pub fn parse_millis(text: &str) -> (r: Option<u64>)
    ensures
        r == parse_decimal(text@),
{
    let n = text.unicode_len();
    let start: usize = if n > 0 && text.get_char(0) == '+' {
        1
    } else {
        0
    };
    let ghost digits = unsigned_part(text@);
    assert(digits =~= text@.subrange(start as int, n as int));
    if start == n {
        return None;
    }
    let mut value: u64 = 0;
    let mut i: usize = start;
    while i < n
        invariant
            start <= i <= n,
            n == text@.len(),
            digits == unsigned_part(text@),
            digits == text@.subrange(start as int, n as int),
            all_digits(digits.take(i - start)),
            value == digits_value(digits.take(i - start)),
        decreases n - i,
    {
        let c = text.get_char(i);
        let code = c as u32;
        let ghost seen = digits.take(i - start);
        let ghost more = digits.take(i - start + 1);
        proof {
            assert(more.drop_last() =~= seen);
            assert(more.last() == c);
            assert(digits[i - start] == c);
        }
        if code < 48 || code > 57 {
            assert(!is_digit(digits[i - start]));
            return None;
        }
        let digit: u64 = (code - 48) as u64;
        if value > (u64::MAX - digit) / 10 {
            proof {
                assert(digits_value(more) == value * 10 + digit);
                if all_digits(digits) {
                    lemma_digits_value_prefix(digits, i - start + 1);
                }
            }
            return None;
        }
        value = value * 10 + digit;
        proof {
            assert forall|j: int| 0 <= j < more.len() implies is_digit(#[trigger] more[j]) by {
                if j < seen.len() {
                    assert(more[j] == seen[j]);
                }
            }
        }
        i += 1;
    }
    assert(digits.take(i - start) =~= digits);
    Some(value)
}

/// The pacing interval for a configured `sleep`.
pub fn pacing_millis(sleep: &Option<String>) -> (millis: u64)
    ensures
        millis == pacing_of(text_view(*sleep)),
{
    match sleep {
        Some(text) => match parse_millis(text.as_str()) {
            Some(millis) => millis,
            None => DEFAULT_SLEEP_MILLIS,
        },
        None => DEFAULT_SLEEP_MILLIS,
    }
}

/// The address to bind for a configured listen address.
pub fn bind_address(listen_address: &str) -> (addr: String)
    ensures
        addr@ == bind_text(listen_address@),
{
    if listen_address.unicode_len() > 0 && listen_address.get_char(0) == ':' {
        String::from_str(ANY_INTERFACE).concat(listen_address)
    } else {
        String::from_str(listen_address)
    }
}

/// The text, or the default where it is missing.
fn text_or(text: &Option<String>, default: &str) -> (out: String)
    ensures
        out@ == or_default(text_view(*text), default@),
{
    match text {
        Some(t) => t.clone(),
        None => String::from_str(default),
    }
}

/// The text, or the empty text where it is missing.
fn text_or_empty(text: &Option<String>) -> (out: String)
    ensures
        out@ == or_default(text_view(*text), Seq::empty()),
{
    match text {
        Some(t) => t.clone(),
        None => String::new(),
    }
}

impl Settings {
    /// Fills in the defaults of a configuration record.
    pub fn resolve(config: &Config) -> (settings: Settings)
        ensures
            settings@ == settings_of(config@),
    {
        let mut hubs: Vec<String> = Vec::new();
        let mut i: usize = 0;
        while i < config.hubs.len()
            invariant
                i <= config.hubs.len(),
                hubs.len() == i,
                forall|j: int| 0 <= j < i ==> hubs[j]@ == hub_names(config.hubs.deep_view())[j],
            decreases config.hubs.len() - i,
        {
            hubs.push(text_or_empty(&config.hubs[i].name));
            i += 1;
        }
        assert(hubs.deep_view() =~= hub_names(config.hubs.deep_view()));
        Settings {
            vpncmd: text_or(&config.vpncmd, DEFAULT_VPNCMD),
            server: text_or(&config.server, DEFAULT_SERVER),
            sleep_millis: pacing_millis(&config.sleep),
            adminpassword: text_or_empty(&config.adminpassword),
            hubs,
        }
    }
}

} // verus!
