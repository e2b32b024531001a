//! The records that the store keeps: protected applications, log entries,
//! policies and settings. The store itself is not part of this library; what
//! is here makes the records and reads the values that come out of it.

use crate::text::chars_of;
use vstd::prelude::*;
use vstd::string::StringExecFns;

verus! {

/// An application that the user is not to run.
#[derive(Debug, Clone)]
pub struct ProtectedApp {
    pub id: String,
    pub name: String,
    pub process_name: String,
    pub icon: String,
    pub category: String,
    pub last_attempt: Option<String>,
    pub created_at: String,
}

/// One entry of the security log.
#[derive(Debug, Clone)]
pub struct SecurityLog {
    pub id: String,
    pub timestamp: String,
    pub event: String,
    pub log_type: String,
    pub app: Option<String>,
}

/// A behaviour that can be switched on and off.
#[derive(Debug, Clone)]
pub struct SecurityPolicy {
    pub id: String,
    pub title: String,
    pub description: String,
    pub enabled: bool,
    pub severity: String,
}

/// A [`SecurityPolicy`] as mathematical values.
pub struct SecurityPolicyView {
    pub id: Seq<char>,
    pub title: Seq<char>,
    pub description: Seq<char>,
    pub enabled: bool,
    pub severity: Seq<char>,
}

impl DeepView for SecurityPolicy {
    type V = SecurityPolicyView;

    open spec fn deep_view(&self) -> SecurityPolicyView {
        SecurityPolicyView {
            id: self.id@,
            title: self.title@,
            description: self.description@,
            enabled: self.enabled,
            severity: self.severity@,
        }
    }
}

/// `uuid::Uuid::new_v4`, written out as text: a fresh random identifier.
/// Nothing is claimed of it, since it is drawn at random.
#[verifier::external_body]
fn fresh_id() -> (id: String) {
    uuid::Uuid::new_v4().to_string()
}

/// `chrono::Utc::now`, written out by `DateTime::to_rfc3339`: the current
/// date and time. Nothing is claimed of it, since it depends on the clock.
#[verifier::external_body]
fn now_rfc3339() -> (stamp: String) {
    chrono::Utc::now().to_rfc3339()
}

/// `chrono::Utc::now`, written out by `DateTime::format` as hours, minutes
/// and seconds: the current time of day. Nothing is claimed of it, since it
/// depends on the clock.
#[verifier::external_body]
fn now_time_of_day() -> (stamp: String) {
    chrono::Utc::now().format("%H:%M:%S").to_string()
}

impl ProtectedApp {
    /// A new protected application under a fresh identifier, created now,
    /// with no attempt to launch it on record.
    pub fn create(name: String, process_name: String, icon: String, category: String) -> (r: Self)
        ensures
            r.name == name,
            r.process_name == process_name,
            r.icon == icon,
            r.category == category,
            r.last_attempt is None,
    {
        ProtectedApp {
            id: fresh_id(),
            name,
            process_name,
            icon,
            category,
            last_attempt: None,
            created_at: now_rfc3339(),
        }
    }
}

impl SecurityLog {
    /// A new log entry under a fresh identifier, stamped with the current
    /// time of day.
    pub fn create(event: String, log_type: String, app: Option<String>) -> (r: Self)
        ensures
            r.event == event,
            r.log_type == log_type,
            r.app == app,
    {
        SecurityLog { id: fresh_id(), timestamp: now_time_of_day(), event, log_type, app }
    }
}

/// The process names of the protected applications, in their order.
pub open spec fn process_names_of(apps: Seq<ProtectedApp>) -> Seq<Seq<char>> {
    Seq::new(apps.len(), |i: int| apps[i].process_name@)
}

/// The process names of the protected applications, in their order.
pub fn process_names(apps: &Vec<ProtectedApp>) -> (names: Vec<String>)
    ensures
        names.deep_view() == process_names_of(apps@),
{
    let mut names: Vec<String> = Vec::new();
    let mut i: usize = 0;
    while i < apps.len()
        invariant
            i <= apps.len(),
            names.len() == i,
            forall|j: int| 0 <= j < i ==> names[j]@ == apps[j].process_name@,
        decreases apps.len() - i,
    {
        names.push(apps[i].process_name.clone());
        i += 1;
    }
    assert(names.deep_view() =~= process_names_of(apps@));
    names
}

/// Whether a policy is on, from the number under which the store keeps the
/// switch: everything but zero means on.
pub fn policy_flag(stored: i32) -> (enabled: bool)
    ensures
        enabled == (stored != 0),
{
    stored != 0
}

/// The value of a yes-or-no setting: `default` where the store holds
/// nothing under the key, else whether it holds the text `true`.
pub fn bool_setting(stored: &Option<String>, default: bool) -> (value: bool)
    ensures
        value == match *stored {
            Some(text) => text@ == "true"@,
            None => default,
        },
{
    match stored {
        Some(text) => {
            let wanted = String::from_str("true");
            *text == wanted
        },
        None => default,
    }
}

/// The identifier of the policy that hides this process from casual view.
pub open spec fn stealth_policy_id() -> Seq<char> {
    "policy_2"@
}

/// The identifier of the policy that locks the shield after inactivity.
pub open spec fn idle_lock_policy_id() -> Seq<char> {
    "policy_4"@
}

/// The policies that a new store starts with.
pub open spec fn default_policy_views() -> Seq<SecurityPolicyView> {
    seq![
        SecurityPolicyView {
            id: "policy_1"@,
            title: "Auto-kill unauthorized apps"@,
            description: "Immediately terminate any protected application launched without authorization"@,
            enabled: true,
            severity: "high"@,
        },
        SecurityPolicyView {
            id: "policy_2"@,
            title: "Stealth Mode"@,
            description: "Hide Ficha from process monitors and system utilities"@,
            enabled: false,
            severity: "medium"@,
        },
        SecurityPolicyView {
            id: "policy_3"@,
            title: "Root Access Prevention"@,
            description: "Block unauthorized sudo/root elevation attempts"@,
            enabled: true,
            severity: "high"@,
        },
        SecurityPolicyView {
            id: "policy_4"@,
            title: "Session Lock on Idle"@,
            description: "Automatically lock shield after 10 minutes of inactivity"@,
            enabled: false,
            severity: "low"@,
        },
    ]
}

/// One policy from its texts.
fn policy(id: &str, title: &str, description: &str, enabled: bool, severity: &str) -> (r:
    SecurityPolicy)
    ensures
        r.deep_view() == (SecurityPolicyView {
            id: id@,
            title: title@,
            description: description@,
            enabled,
            severity: severity@,
        }),
{
    SecurityPolicy {
        id: String::from_str(id),
        title: String::from_str(title),
        description: String::from_str(description),
        enabled,
        severity: String::from_str(severity),
    }
}

/// The policies that a new store starts with.
pub fn default_policies() -> (r: Vec<SecurityPolicy>)
    ensures
        r.deep_view() == default_policy_views(),
{
    let mut r: Vec<SecurityPolicy> = Vec::new();
    r.push(
        policy(
            "policy_1",
            "Auto-kill unauthorized apps",
            "Immediately terminate any protected application launched without authorization",
            true,
            "high",
        ),
    );
    r.push(
        policy(
            "policy_2",
            "Stealth Mode",
            "Hide Ficha from process monitors and system utilities",
            false,
            "medium",
        ),
    );
    r.push(
        policy(
            "policy_3",
            "Root Access Prevention",
            "Block unauthorized sudo/root elevation attempts",
            true,
            "high",
        ),
    );
    r.push(
        policy(
            "policy_4",
            "Session Lock on Idle",
            "Automatically lock shield after 10 minutes of inactivity",
            false,
            "low",
        ),
    );
    assert(r.deep_view() =~= default_policy_views());
    r
}

/// Why a setting could not be read.
#[derive(Debug, Clone, Copy, PartialEq, Eq, Structural)]
pub enum SettingError {
    /// The store holds a text that is no whole number of 64 bits.
    NotANumber,
}

/// Whether `c` is one of the digits `0` to `9`.
pub open spec fn is_digit(c: char) -> bool {
    48 <= c as int <= 57
}

/// Whether `s` holds digits only.
pub open spec fn all_digits(s: Seq<char>) -> bool {
    forall|i: int| 0 <= i < s.len() ==> is_digit(#[trigger] s[i])
}

/// The number that a run of digits denotes in base ten.
pub open spec fn digits_value(s: Seq<char>) -> int
    decreases s.len(),
{
    if s.len() == 0 {
        0
    } else {
        digits_value(s.drop_last()) * 10 + (s.last() as int - 48)
    }
}

/// The whole number that a text denotes: an optional sign, `+` or `-`, then
/// one digit or more and nothing else, with a value that fits 64 bits.
pub open spec fn parse_i64(s: Seq<char>) -> Option<i64> {
    let negative = s.len() > 0 && s[0] == '-';
    let signed = s.len() > 0 && (s[0] == '-' || s[0] == '+');
    let digits = if signed {
        s.skip(1)
    } else {
        s
    };
    let value = if negative {
        -digits_value(digits)
    } else {
        digits_value(digits)
    };
    if digits.len() > 0 && all_digits(digits) && i64::MIN <= value <= i64::MAX {
        Some(value as i64)
    } else {
        None
    }
}

/// The whole number that `text` denotes, if it denotes one.
#[verifier::loop_isolation(false)]
pub fn parse_int(text: &str) -> (r: Option<i64>)
    ensures
        r == parse_i64(text@),
{
    let chars = chars_of(text);
    let n = chars.len();
    let negative = n > 0 && chars[0] == '-';
    let signed = n > 0 && (chars[0] == '-' || chars[0] == '+');
    let start: usize = if signed {
        1
    } else {
        0
    };
    let ghost digits = chars@.skip(start as int);
    if start == n {
        return None;
    }
    let limit: u128 = 0x8000_0000_0000_0000;
    let mut acc: u128 = 0;
    let mut overflow = false;
    let mut i: usize = start;
    assert(digits.take(0) =~= Seq::<char>::empty());
    while i < n
        invariant
            chars@ == text@,
            n == chars.len(),
            start <= i <= n,
            digits == chars@.skip(start as int),
            limit == 0x8000_0000_0000_0000,
            all_digits(digits.take(i - start)),
            !overflow ==> acc == digits_value(digits.take(i - start)) && acc <= limit,
            overflow ==> digits_value(digits.take(i - start)) > limit,
        decreases n - i,
    {
        let c = chars[i];
        let ghost upto = digits.take(i + 1 - start);
        assert(upto.drop_last() =~= digits.take(i - start));
        assert(upto.last() == c);
        if c < '0' || c > '9' {
            assert(digits[i - start] == c);
            assert(!is_digit(digits[i - start]));
            return None;
        }
        let d: u128 = (c as u32 - '0' as u32) as u128;
        if !overflow {
            acc = acc * 10 + d;
            if acc > limit {
                overflow = true;
            }
        }
        assert(all_digits(upto)) by {
            assert forall|k: int| 0 <= k < upto.len() implies is_digit(#[trigger] upto[k]) by {
                if k < upto.len() - 1 {
                    assert(upto[k] == digits.take(i - start)[k]);
                }
            }
        }
        i += 1;
    }
    assert(digits.take(n - start) =~= digits);
    assert(text@.skip(0) =~= text@);
    if overflow {
        None
    } else if negative {
        if acc == limit {
            Some(i64::MIN)
        } else {
            Some(-(acc as i64))
        }
    } else if acc == limit {
        None
    } else {
        Some(acc as i64)
    }
}

/// The value of a whole-number setting: `default` where the store holds
/// nothing under the key, else the number that the stored text denotes.
pub fn int_setting(stored: &Option<String>, default: i64) -> (value: Result<i64, SettingError>)
    ensures
        value == match *stored {
            Some(text) => match parse_i64(text@) {
                Some(n) => Ok::<i64, SettingError>(n),
                None => Err::<i64, SettingError>(SettingError::NotANumber),
            },
            None => Ok::<i64, SettingError>(default),
        },
{
    match stored {
        Some(text) => match parse_int(text.as_str()) {
            Some(n) => Ok(n),
            None => Err(SettingError::NotANumber),
        },
        None => Ok(default),
    }
}

/// The applications that a new store protects: name, process name, icon
/// and category of each.
pub open spec fn default_app_rows() -> Seq<(Seq<char>, Seq<char>, Seq<char>, Seq<char>)> {
    seq![
        ("Brave Browser"@, "brave"@, "🌐"@, "Browser"@),
        ("Google Chrome"@, "chrome"@, "🌐"@, "Browser"@),
        ("Firefox"@, "firefox"@, "🦊"@, "Browser"@),
        ("Discord"@, "discord"@, "💬"@, "Communication"@),
        ("Slack"@, "slack"@, "💼"@, "Productivity"@),
        ("Steam"@, "steam"@, "🎮"@, "Gaming"@),
    ]
}

/// One application from its texts, under a fresh identifier.
fn default_app(name: &str, process_name: &str, icon: &str, category: &str) -> (r: ProtectedApp)
    ensures
        (r.name@, r.process_name@, r.icon@, r.category@) == (
            name@,
            process_name@,
            icon@,
            category@,
        ),
        r.last_attempt is None,
{
    ProtectedApp::create(
        String::from_str(name),
        String::from_str(process_name),
        String::from_str(icon),
        String::from_str(category),
    )
}

/// The applications that a new store protects, each under a fresh
/// identifier and created now.
pub fn default_apps() -> (r: Vec<ProtectedApp>)
    ensures
        r.len() == default_app_rows().len(),
        forall|i: int|
            0 <= i < r.len() ==> (r[i].name@, r[i].process_name@, r[i].icon@, r[i].category@)
                == #[trigger] default_app_rows()[i] && r[i].last_attempt is None,
{
    let mut r: Vec<ProtectedApp> = Vec::new();
    r.push(default_app("Brave Browser", "brave", "🌐", "Browser"));
    r.push(default_app("Google Chrome", "chrome", "🌐", "Browser"));
    r.push(default_app("Firefox", "firefox", "🦊", "Browser"));
    r.push(default_app("Discord", "discord", "💬", "Communication"));
    r.push(default_app("Slack", "slack", "💼", "Productivity"));
    r.push(default_app("Steam", "steam", "🎮", "Gaming"));
    r
}

} // verus!
