//! The oversampling factor and the string it is persisted as.

use vstd::prelude::*;

verus! {

/// How many inner samples the amplifier runs per host sample.
#[derive(Debug, Clone, Copy, PartialEq, Eq, Structural)]
pub enum OversamplingFactor {
    X1,
    X2,
    X4,
    X8,
}

impl OversamplingFactor {
    pub open spec fn inner_samples(self) -> u8 {
        match self {
            OversamplingFactor::X1 => 1,
            OversamplingFactor::X2 => 2,
            OversamplingFactor::X4 => 4,
            OversamplingFactor::X8 => 8,
        }
    }

    pub open spec fn persisted_text(self) -> Seq<char> {
        match self {
            OversamplingFactor::X1 => "X1"@,
            OversamplingFactor::X2 => "X2"@,
            OversamplingFactor::X4 => "X4"@,
            OversamplingFactor::X8 => "X8"@,
        }
    }

    pub open spec fn label_text(self) -> Seq<char> {
        match self {
            OversamplingFactor::X1 => "1x (none)"@,
            OversamplingFactor::X2 => "2x"@,
            OversamplingFactor::X4 => "4x"@,
            OversamplingFactor::X8 => "8x"@,
        }
    }

    pub fn ratio(self) -> (ratio: u8)
        ensures
            ratio == self.inner_samples(),
    {
        match self {
            OversamplingFactor::X1 => 1,
            OversamplingFactor::X2 => 2,
            OversamplingFactor::X4 => 4,
            OversamplingFactor::X8 => 8,
        }
    }
}

/// The factor that a persisted string stands for: the three strings with a
/// factor of their own, and 2x for `"X2"` and every other string.
pub open spec fn parsed_factor(s: Seq<char>) -> OversamplingFactor {
    if s == "X1"@ {
        OversamplingFactor::X1
    } else if s == "X4"@ {
        OversamplingFactor::X4
    } else if s == "X8"@ {
        OversamplingFactor::X8
    } else {
        OversamplingFactor::X2
    }
}

/// The factor of the persisted string when it can be read, else 4x.
pub open spec fn stored_factor(s: Option<Seq<char>>) -> OversamplingFactor {
    match s {
        Some(text) => parsed_factor(text),
        None => OversamplingFactor::X4,
    }
}

/// The factor that a running ratio stands for; 4x for a ratio that is none,
/// such as the 0 of a plug-in that is not initialised yet.
pub open spec fn running_factor(ratio: u8) -> OversamplingFactor {
    if ratio == 1 {
        OversamplingFactor::X1
    } else if ratio == 2 {
        OversamplingFactor::X2
    } else if ratio == 8 {
        OversamplingFactor::X8
    } else {
        OversamplingFactor::X4
    }
}

/// Reads a persisted factor.
pub fn parse_os_factor(s: &str) -> (factor: OversamplingFactor)
    ensures
        factor == parsed_factor(s@),
{
    let text = s.to_owned();
    if text == "X1".to_owned() {
        OversamplingFactor::X1
    } else if text == "X4".to_owned() {
        OversamplingFactor::X4
    } else if text == "X8".to_owned() {
        OversamplingFactor::X8
    } else {
        OversamplingFactor::X2
    }
}

/// The factor to build the audio state with: that of the persisted string, or
/// 4x when the string could not be read.
pub fn selected_os_factor(persisted: Option<&str>) -> (factor: OversamplingFactor)
    ensures
        factor == stored_factor(match persisted {
            Some(s) => Some(s@),
            None => None,
        }),
{
    match persisted {
        Some(s) => parse_os_factor(s),
        None => OversamplingFactor::X4,
    }
}

/// The string a factor is persisted as.
pub fn os_factor_str(f: OversamplingFactor) -> (text: &'static str)
    ensures
        text@ == f.persisted_text(),
{
    match f {
        OversamplingFactor::X1 => "X1",
        OversamplingFactor::X2 => "X2",
        OversamplingFactor::X4 => "X4",
        OversamplingFactor::X8 => "X8",
    }
}

/// The label of a factor in the settings.
pub fn os_factor_label(f: OversamplingFactor) -> (text: &'static str)
    ensures
        text@ == f.label_text(),
{
    match f {
        OversamplingFactor::X1 => "1x (none)",
        OversamplingFactor::X2 => "2x",
        OversamplingFactor::X4 => "4x",
        OversamplingFactor::X8 => "8x",
    }
}

/// The factor the audio thread runs at, from the ratio it published.
pub fn active_os_factor(ratio: u8) -> (factor: OversamplingFactor)
    ensures
        factor == running_factor(ratio),
{
    match ratio {
        1 => OversamplingFactor::X1,
        2 => OversamplingFactor::X2,
        8 => OversamplingFactor::X8,
        _ => OversamplingFactor::X4,
    }
}

/// The factors, as the editor lists them.
pub open spec fn os_factor_choices_list() -> Seq<OversamplingFactor> {
    seq![
        OversamplingFactor::X1,
        OversamplingFactor::X2,
        OversamplingFactor::X4,
        OversamplingFactor::X8,
    ]
}

pub fn os_factor_choices() -> (choices: Vec<OversamplingFactor>)
    ensures
        choices@ == os_factor_choices_list(),
{
    let choices = vec![
        OversamplingFactor::X1,
        OversamplingFactor::X2,
        OversamplingFactor::X4,
        OversamplingFactor::X8,
    ];
    assert(choices@ =~= os_factor_choices_list());
    choices
}

/// Every factor can be chosen, and none is listed twice.
pub proof fn law_every_factor_is_offered_once(choice: OversamplingFactor)
    ensures
        os_factor_choices_list().contains(choice),
        os_factor_choices_list().no_duplicates(),
{
    assert(os_factor_choices_list()[0] == OversamplingFactor::X1);
    assert(os_factor_choices_list()[1] == OversamplingFactor::X2);
    assert(os_factor_choices_list()[2] == OversamplingFactor::X4);
    assert(os_factor_choices_list()[3] == OversamplingFactor::X8);
}

/// A factor survives being persisted and read back.
pub proof fn law_factor_round_trips_through_string(f: OversamplingFactor)
    ensures
        parsed_factor(f.persisted_text()) == f,
{
    reveal_strlit("X1");
    reveal_strlit("X2");
    reveal_strlit("X4");
    reveal_strlit("X8");
    assert("X2"@[1] != "X1"@[1] && "X2"@[1] != "X4"@[1] && "X2"@[1] != "X8"@[1]);
    assert("X4"@[1] != "X1"@[1] && "X8"@[1] != "X1"@[1] && "X8"@[1] != "X4"@[1]);
}

/// A factor survives being published as a ratio and read back by the editor.
pub proof fn law_factor_round_trips_through_ratio(f: OversamplingFactor)
    ensures
        running_factor(f.inner_samples()) == f,
{
}

/// Every string stands for a factor, and a string that no factor is persisted
/// as stands for 2x.
pub proof fn law_unknown_string_is_x2(s: Seq<char>)
    requires
        forall|f: OversamplingFactor| #[trigger] f.persisted_text() != s,
    ensures
        parsed_factor(s) == OversamplingFactor::X2,
{
    assert(OversamplingFactor::X1.persisted_text() != s);
    assert(OversamplingFactor::X4.persisted_text() != s);
    assert(OversamplingFactor::X8.persisted_text() != s);
}

/// A factor is persisted as an X and the decimal digit of the ratio that it
/// runs at.
pub proof fn law_persisted_form_is_the_ratio(f: OversamplingFactor, text: &'static str, ratio: u8)
    requires
        call_ensures(os_factor_str, (f,), text),
        call_ensures(OversamplingFactor::ratio, (f,), ratio),
    ensures
        text@ =~= seq!['X', (48 + ratio) as char],
        ratio == 1 || ratio == 2 || ratio == 4 || ratio == 8,
        f == OversamplingFactor::X1 <==> ratio == 1,
        f == OversamplingFactor::X2 <==> ratio == 2,
        f == OversamplingFactor::X4 <==> ratio == 4,
        f == OversamplingFactor::X8 <==> ratio == 8,
{
    reveal_strlit("X1");
    reveal_strlit("X2");
    reveal_strlit("X4");
    reveal_strlit("X8");
}

/// What was persisted of a factor reads back as the factor, and a string that
/// was persisted of none reads as 2x.
pub proof fn law_reading_inverts_persisting(s: &str, read: OversamplingFactor)
    requires
        call_ensures(parse_os_factor, (s,), read),
    ensures
        forall|f: OversamplingFactor, text: &'static str| #[trigger]
            call_ensures(os_factor_str, (f,), text) && text@ == s@ ==> read == f,
        s@ != "X1"@ && s@ != "X4"@ && s@ != "X8"@ ==> read == OversamplingFactor::X2,
        read != OversamplingFactor::X2 ==> s@.len() == 2 && s@[0] == 'X',
{
    assert forall|f: OversamplingFactor, text: &'static str| #[trigger]
        call_ensures(os_factor_str, (f,), text) && text@ == s@ implies read == f by {
        law_factor_round_trips_through_string(f);
    }
    reveal_strlit("X1");
    reveal_strlit("X4");
    reveal_strlit("X8");
}

/// A start goes by what was persisted, and by 4x where that cannot be read.
pub proof fn law_start_goes_by_what_was_persisted(
    persisted: Option<&str>,
    chosen: OversamplingFactor,
)
    requires
        call_ensures(selected_os_factor, (persisted,), chosen),
    ensures
        persisted is None ==> chosen == OversamplingFactor::X4,
        persisted matches Some(s) ==> forall|read: OversamplingFactor| #[trigger]
            call_ensures(parse_os_factor, (s,), read) ==> read == chosen,
        persisted matches Some(s) ==> forall|f: OversamplingFactor, text: &'static str| #[trigger]
            call_ensures(os_factor_str, (f,), text) && text@ == s@ ==> chosen == f,
{
    if let Some(s) = persisted {
        assert forall|f: OversamplingFactor, text: &'static str| #[trigger]
            call_ensures(os_factor_str, (f,), text) && text@ == s@ implies chosen == f by {
            law_factor_round_trips_through_string(f);
        }
    }
}

/// A ratio that some factor runs at is read as that factor, and any other as
/// 4x.
pub proof fn law_ratio_is_read_as_its_factor(ratio: u8, read: OversamplingFactor)
    requires
        call_ensures(active_os_factor, (ratio,), read),
    ensures
        forall|f: OversamplingFactor| #[trigger]
            call_ensures(OversamplingFactor::ratio, (f,), ratio) ==> read == f,
        ratio != 1 && ratio != 2 && ratio != 8 ==> read == OversamplingFactor::X4,
        ratio == 1 || ratio == 2 || ratio == 8 ==> read != OversamplingFactor::X4,
{
}

} // verus!
