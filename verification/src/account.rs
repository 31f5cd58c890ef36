//! Honest presentation of an account's license for the Account page: an
//! unknown status reads "Unknown" and an active license whose day count the
//! engine did not supply shows no fabricated number.

use vstd::prelude::*;
use crate::strs;

verus! {

/// How a license row reads at a glance, for the theme to colour at render time.
#[derive(Debug, Clone, Copy, PartialEq, Eq)]
pub enum LicenseTone {
    /// No judgement (community, or an unknown status).
    Neutral,
    /// All good (perpetual, active).
    Positive,
    /// Worth attention but not broken.
    Caution,
    /// A problem the user should act on (expired).
    Negative,
}

/// The exact text the Account page shows for a license.
#[derive(Debug, Clone, PartialEq, Eq)]
pub struct LicenseSummary {
    pub label: String,
    pub detail: Option<String>,
    pub tone: LicenseTone,
}

/// A per-user setting the Account page links into (a shortcut into the native
/// settings, which do the editing).
#[derive(Debug, Clone, Copy, PartialEq, Eq)]
pub struct PersonalSetting {
    /// The row's label, e.g. "Appearance".
    pub title: &'static str,
    /// One honest line on what editing it does.
    pub description: &'static str,
    /// The `json_path` of the native setting to navigate to.
    pub target_json_path: &'static str,
}

/// The per-user settings the Account page links into, in display order.
pub fn personal_settings() -> (r: [PersonalSetting; 3])
    ensures
        r@[0].title@ == "Appearance"@,
        r@[0].description@ == "Pick your theme and light/dark mode."@,
        r@[0].target_json_path@ == "theme$"@,
        r@[1].title@ == "Editor font"@,
        r@[1].description@ == "Set the editor's font size."@,
        r@[1].target_json_path@ == "buffer_font_size"@,
        r@[2].title@ == "Keymap"@,
        r@[2].description@ == "Choose a base keymap."@,
        r@[2].target_json_path@ == "base_keymap"@,
{
    [
        PersonalSetting {
            title: "Appearance",
            description: "Pick your theme and light/dark mode.",
            target_json_path: "theme$",
        },
        PersonalSetting {
            title: "Editor font",
            description: "Set the editor's font size.",
            target_json_path: "buffer_font_size",
        },
        PersonalSetting {
            title: "Keymap",
            description: "Choose a base keymap.",
            target_json_path: "base_keymap",
        },
    ]
}

/// "1 day left" for one day, otherwise the count followed by " days left".
pub open spec fn days_left_text(days: int) -> Seq<char> {
    if days == 1 {
        "1 day left"@
    } else {
        strs::signed_decimal(days) + " days left"@
    }
}

/// "1 day left" / "N days left", pluralised honestly.
fn days_left_phrase(days: i64) -> (r: String)
    ensures
        r@ == days_left_text(days as int),
{
    if days == 1 {
        strs::own("1 day left")
    } else {
        let mut s = String::new();
        strs::push_signed_decimal(&mut s, days);
        strs::append_str(&mut s, " days left");
        assert(s@ =~= days_left_text(days as int));
        s
    }
}

/// What `license_summary` shows for `status` and `days`: label, detail, tone.
pub open spec fn license_view(status: Seq<char>, days: Option<i64>) -> (
    Seq<char>,
    Option<Seq<char>>,
    LicenseTone,
) {
    if status == "perpetual"@ {
        ("Perpetual"@, Some("Never expires"@), LicenseTone::Positive)
    } else if status == "active"@ {
        match days {
            Some(n) => if n == 0 {
                ("Active"@, Some("Expires today"@), LicenseTone::Caution)
            } else {
                ("Active"@, Some(days_left_text(n as int)), LicenseTone::Positive)
            },
            None => ("Active"@, None, LicenseTone::Positive),
        }
    } else if status == "expired"@ {
        ("Expired"@, Some("Renew to restore access"@), LicenseTone::Negative)
    } else if status == "community"@ {
        ("Community"@, None, LicenseTone::Neutral)
    } else {
        ("Unknown"@, None, LicenseTone::Neutral)
    }
}

/// Map an engine license `status` (and, for an active one, `days_remaining`)
/// to the honest row text. An unrecognised status reads "Unknown" and a
/// missing day count shows no invented number.
pub fn license_summary(status: &str, days_remaining: Option<i64>) -> (r: LicenseSummary)
    ensures
        (r.label@, strs::opt_view(r.detail), r.tone) == license_view(status@, days_remaining),
{
    if strs::eq_str(status, "perpetual") {
        LicenseSummary {
            label: strs::own("Perpetual"),
            detail: Some(strs::own("Never expires")),
            tone: LicenseTone::Positive,
        }
    } else if strs::eq_str(status, "active") {
        let (detail, tone) = match days_remaining {
            Some(n) => if n == 0 {
                (Some(strs::own("Expires today")), LicenseTone::Caution)
            } else {
                (Some(days_left_phrase(n)), LicenseTone::Positive)
            },
            None => (None, LicenseTone::Positive),
        };
        LicenseSummary { label: strs::own("Active"), detail, tone }
    } else if strs::eq_str(status, "expired") {
        LicenseSummary {
            label: strs::own("Expired"),
            detail: Some(strs::own("Renew to restore access")),
            tone: LicenseTone::Negative,
        }
    } else if strs::eq_str(status, "community") {
        LicenseSummary { label: strs::own("Community"), detail: None, tone: LicenseTone::Neutral }
    } else {
        LicenseSummary { label: strs::own("Unknown"), detail: None, tone: LicenseTone::Neutral }
    }
}

} // verus!
