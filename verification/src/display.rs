//! The display page: the resolutions and scales on offer, the current ones read from the
//! output of `wlr-randr`, the arguments that set them, and what applying them leads to.
use vstd::prelude::*;
use crate::text::{concat, decimal, decimal_str, has_infix, owned, str_eq};

verus! {

/// The text of capture group `group` in the first match of the regular expression
/// `pattern` in `haystack`, as the `regex` crate finds it; `None` when the pattern does not
/// compile, nothing matches, or the group took no part in the match.
pub uninterp spec fn regex_capture_spec(pattern: Seq<char>, haystack: Seq<char>, group: nat) -> Option<
    Seq<char>,
>;

/// Calls `regex::Regex::new`, then `Regex::captures` on the haystack and `Captures::get`
/// for the group, and copies the group's text. The result is taken to depend on the three
/// arguments alone, and a captured text to be a part of the haystack, which the crate's
/// documentation of `Match::as_str` states; which text the engine picks is not stated.
#[verifier::external_body]
pub(crate) fn regex_capture(pattern: &str, haystack: &str, group: usize) -> (r: Option<String>)
    ensures
        regex_capture_spec(pattern@, haystack@, group as nat) == match r {
            Some(s) => Some(s@),
            None => None::<Seq<char>>,
        },
        r matches Some(s) ==> has_infix(haystack@, s@),
{
    let re = match regex::Regex::new(pattern) {
        Ok(re) => re,
        Err(_) => return None,
    };
    let caps = re.captures(haystack)?;
    let m = caps.get(group)?;
    Some(m.as_str().to_string())
}

/// The pattern that finds the current resolution of the built-in screen.
pub open spec fn resolution_pattern() -> Seq<char> {
    "eDP-1[\\s\\S]*?(\\d+x\\d+)\\s*px[^\\n]*current"@
}

/// The pattern that finds the current scale of the built-in screen.
pub open spec fn scale_pattern() -> Seq<char> {
    "eDP-1[\\s\\S]*?Scale:\\s*([\\d.]+)"@
}

/// The resolutions on offer, the default first.
pub open spec fn supported_resolutions_spec() -> Seq<Seq<char>> {
    seq!["1920x1200"@, "1936x1203"@, "1952x1217"@, "2104x1236"@]
}

/// The scales on offer, the default first.
pub open spec fn supported_scales_spec() -> Seq<Seq<char>> {
    seq!["100%"@, "125%"@, "150%"@]
}

/// The index of the first entry equal to `target`.
pub open spec fn index_in(list: Seq<Seq<char>>, target: Seq<char>) -> Option<int>
    decreases list.len(),
{
    if list.len() == 0 {
        None
    } else if list[0] == target {
        Some(0)
    } else {
        match index_in(list.drop_first(), target) {
            Some(i) => Some(i + 1),
            None => None,
        }
    }
}

pub proof fn lemma_index_in(list: Seq<Seq<char>>, target: Seq<char>)
    ensures
        match index_in(list, target) {
            Some(i) => 0 <= i < list.len() && list[i] == target && forall|j: int|
                0 <= j < i ==> #[trigger] list[j] != target,
            None => forall|j: int| 0 <= j < list.len() ==> #[trigger] list[j] != target,
        },
    decreases list.len(),
{
    if list.len() > 0 && list[0] != target {
        let t = list.drop_first();
        lemma_index_in(t, target);
        assert forall|j: int| 0 < j < list.len() implies list[j] == t[j - 1] by {}
    }
}

/// The views of a list of strings.
pub open spec fn str_views(v: Seq<String>) -> Seq<Seq<char>> {
    v.map_values(|s: String| s@)
}

/// The arguments of `wlr-randr` that set resolution `res`: the default by its mode, the
/// others as a custom mode at 60 Hz.
pub open spec fn resolution_args_spec(index: u32, res: Seq<char>) -> Seq<Seq<char>> {
    if index > 0 {
        seq!["--output"@, "eDP-1"@, "--custom-mode"@, res + "@60"@]
    } else {
        seq!["--output"@, "eDP-1"@, "--mode"@, res]
    }
}

/// The scale factor of a list entry, as `wlr-randr` takes it.
pub open spec fn scale_factor_spec(index: u32) -> Seq<char> {
    if index == 1 {
        "1.25"@
    } else if index == 2 {
        "1.5"@
    } else {
        "1"@
    }
}

/// What applying the chosen settings leads to.
#[derive(Debug, Clone, Copy, PartialEq, Eq, Structural)]
pub enum ApplyOutcome {
    /// A setting failed: the error popup is shown.
    Error,
    /// Settings other than the defaults took: the page asks to keep them.
    Changed,
    /// The defaults took: nothing more to do.
    Unchanged,
}

/// The display page.
pub struct DisplaySettingsPage;

impl DisplaySettingsPage {
    /// The resolutions on offer.
    pub fn supported_resolutions() -> (r: Vec<String>)
        ensures
            str_views(r@) == supported_resolutions_spec(),
    {
        let mut v: Vec<String> = Vec::new();
        v.push(owned("1920x1200"));
        v.push(owned("1936x1203"));
        v.push(owned("1952x1217"));
        v.push(owned("2104x1236"));
        assert(str_views(v@) =~= supported_resolutions_spec());
        v
    }

    /// The scales on offer.
    pub fn supported_scales() -> (r: Vec<String>)
        ensures
            str_views(r@) == supported_scales_spec(),
    {
        let mut v: Vec<String> = Vec::new();
        v.push(owned("100%"));
        v.push(owned("125%"));
        v.push(owned("150%"));
        assert(str_views(v@) =~= supported_scales_spec());
        v
    }

    /// The index of the first entry equal to `target`.
    pub fn index_of(list: &Vec<String>, target: &str) -> (r: Option<u32>)
        requires
            list@.len() <= u32::MAX,
        ensures
            index_in(str_views(list@), target@) == match r {
                Some(k) => Some(k as int),
                None => None::<int>,
            },
    {
        let ghost l = str_views(list@);
        proof {
            lemma_index_in(l, target@);
        }
        let mut k: usize = 0;
        while k < list.len()
            invariant
                k <= list.len() <= u32::MAX,
                l == str_views(list@),
                forall|j: int| 0 <= j < k ==> #[trigger] l[j] != target@,
                match index_in(l, target@) {
                    Some(i) => 0 <= i < l.len() && l[i] == target@ && forall|j: int|
                        0 <= j < i ==> #[trigger] l[j] != target@,
                    None => forall|j: int| 0 <= j < l.len() ==> #[trigger] l[j] != target@,
                },
            decreases list.len() - k,
        {
            if str_eq(list[k].as_str(), target) {
                assert(l[k as int] == target@);
                proof {
                    match index_in(l, target@) {
                        Some(i) => {
                            if i < k {
                                assert(l[i] != target@);
                            }
                            if i > k {
                                assert(l[k as int] != target@);
                            }
                        },
                        None => {
                            assert(l[k as int] != target@);
                        },
                    }
                }
                return Some(k as u32);
            }
            assert(l[k as int] != target@);
            k = k + 1;
        }
        None
    }

    /// The index of the current resolution of the built-in screen among those on offer,
    /// from the output of `wlr-randr`.
    pub fn current_resolution_index(output: &str) -> (r: Option<u32>)
        ensures
            match regex_capture_spec(resolution_pattern(), output@, 1) {
                Some(res) => index_in(supported_resolutions_spec(), res) == match r {
                    Some(k) => Some(k as int),
                    None => None::<int>,
                },
                None => r is None,
            },
    {
        let pattern = "eDP-1[\\s\\S]*?(\\d+x\\d+)\\s*px[^\\n]*current";
        proof {
            assert(pattern@ == resolution_pattern());
        }
        match regex_capture(pattern, output, 1) {
            Some(res) => {
                let list = DisplaySettingsPage::supported_resolutions();
                DisplaySettingsPage::index_of(&list, res.as_str())
            },
            None => None,
        }
    }

    /// The current scale of the built-in screen as `wlr-randr` prints it.
    pub fn current_scale_text(output: &str) -> (r: Option<String>)
        ensures
            regex_capture_spec(scale_pattern(), output@, 1) == match r {
                Some(s) => Some(s@),
                None => None::<Seq<char>>,
            },
    {
        let pattern = "eDP-1[\\s\\S]*?Scale:\\s*([\\d.]+)";
        proof {
            assert(pattern@ == scale_pattern());
        }
        regex_capture(pattern, output, 1)
    }

    /// The index of a scale, given as a rounded percentage, among those on offer.
    pub fn scale_index(percent: u32) -> (r: Option<u32>)
        ensures
            index_in(supported_scales_spec(), decimal(percent as nat) + "%"@) == match r {
                Some(k) => Some(k as int),
                None => None::<int>,
            },
    {
        let d = decimal_str(percent as u64);
        let text = concat(d.as_str(), "%");
        let list = DisplaySettingsPage::supported_scales();
        DisplaySettingsPage::index_of(&list, text.as_str())
    }

    /// The arguments of `wlr-randr` that set the resolution of list entry `index`.
    pub fn resolution_args(index: u32) -> (r: Vec<String>)
        requires
            index < 4,
        ensures
            str_views(r@) == resolution_args_spec(index, supported_resolutions_spec()[index as int]),
    {
        let list = DisplaySettingsPage::supported_resolutions();
        assert(str_views(list@).len() == list@.len());
        assert(str_views(list@)[index as int] == list@[index as int]@);
        let res = list[index as usize].as_str();
        let mut v: Vec<String> = Vec::new();
        v.push(owned("--output"));
        v.push(owned("eDP-1"));
        if index > 0 {
            v.push(owned("--custom-mode"));
            v.push(concat(res, "@60"));
        } else {
            v.push(owned("--mode"));
            v.push(owned(res));
        }
        assert(str_views(v@) =~= resolution_args_spec(index, supported_resolutions_spec()[index as int]));
        v
    }

    /// The arguments of `wlr-randr` that set the scale of list entry `index`; an index
    /// beyond the list sets the default scale.
    pub fn scale_args(index: u32) -> (r: Vec<String>)
        ensures
            str_views(r@) == seq!["--output"@, "eDP-1"@, "--scale"@, scale_factor_spec(index)],
    {
        let factor = if index == 1 {
            "1.25"
        } else if index == 2 {
            "1.5"
        } else {
            "1"
        };
        let mut v: Vec<String> = Vec::new();
        v.push(owned("--output"));
        v.push(owned("eDP-1"));
        v.push(owned("--scale"));
        v.push(owned(factor));
        assert(str_views(v@) =~= seq!["--output"@, "eDP-1"@, "--scale"@, scale_factor_spec(index)]);
        v
    }

    /// What applying the chosen resolution and scale leads to, once both were tried.
    pub fn apply_outcome(
        resolution_idx: u32,
        scale_idx: u32,
        is_resolution_set: bool,
        is_scale_set: bool,
    ) -> (r: ApplyOutcome)
        ensures
            r == (if !is_resolution_set || !is_scale_set {
                ApplyOutcome::Error
            } else if resolution_idx > 0 || scale_idx > 0 {
                ApplyOutcome::Changed
            } else {
                ApplyOutcome::Unchanged
            }),
    {
        if !is_resolution_set || !is_scale_set {
            ApplyOutcome::Error
        } else if resolution_idx > 0 || scale_idx > 0 {
            ApplyOutcome::Changed
        } else {
            ApplyOutcome::Unchanged
        }
    }
}

/// The text of the countdown before the display settings are reset.
pub fn countdown_text(sec: u32) -> (r: String)
    ensures
        r@ == "Closing in: "@ + decimal(sec as nat) + " seconds"@,
{
    let d = decimal_str(sec as u64);
    let a = concat("Closing in: ", d.as_str());
    concat(a.as_str(), " seconds")
}

/// One second of the countdown: the seconds left and whether the popup closes now.
pub fn countdown_tick(remaining: u32) -> (r: (u32, bool))
    requires
        remaining > 0,
    ensures
        r.0 == remaining - 1,
        r.1 == (remaining == 1),
{
    let left = remaining - 1;
    (left, left == 0)
}

/// Reading the current resolution finds an entry that has exactly the captured text, and
/// the first one with it.
pub proof fn law_index_finds_first(list: Seq<Seq<char>>, target: Seq<char>)
    ensures
        index_in(list, target) matches Some(i) ==> list[i] == target && forall|j: int|
            0 <= j < i ==> #[trigger] list[j] != target,
        index_in(list, target) is None <==> !list.contains(target),
{
    lemma_index_in(list, target);
    if list.contains(target) {
        let k = choose|k: int| 0 <= k < list.len() && list[k] == target;
        assert(list[k] == target);
    }
}


/// Setting the default resolution (the first on offer) names its mode; every other
/// resolution on offer is set as a custom mode at 60 Hz. Both address the output `eDP-1`.
pub proof fn law_resolution_args(index: u32)
    requires
        index < 4,
    ensures
        resolution_args_spec(index, supported_resolutions_spec()[index as int]).len() == 4,
        resolution_args_spec(index, supported_resolutions_spec()[index as int])[0] == "--output"@,
        resolution_args_spec(index, supported_resolutions_spec()[index as int])[1] == "eDP-1"@,
        index == 0 ==> resolution_args_spec(index, supported_resolutions_spec()[index as int])[2] == "--mode"@
            && resolution_args_spec(index, supported_resolutions_spec()[index as int])[3] == "1920x1200"@,
        index > 0 ==> resolution_args_spec(index, supported_resolutions_spec()[index as int])[2]
            == "--custom-mode"@ && resolution_args_spec(index, supported_resolutions_spec()[index as int])[3]
            == supported_resolutions_spec()[index as int] + "@60"@,
{
}


/// The scale set for each entry on offer is the entry's percentage as a factor: 100% is 1,
/// 125% is 1.25 and 150% is 1.5.
pub proof fn law_scale_factor_matches_offer(index: u32)
    requires
        index < 3,
    ensures
        supported_scales_spec()[index as int] == "100%"@ ==> scale_factor_spec(index) == "1"@,
        supported_scales_spec()[index as int] == "125%"@ ==> scale_factor_spec(index) == "1.25"@,
        supported_scales_spec()[index as int] == "150%"@ ==> scale_factor_spec(index) == "1.5"@,
{
    reveal_strlit("100%");
    reveal_strlit("125%");
    reveal_strlit("150%");
    assert("100%"@[1] != "125%"@[1]);
    assert("100%"@[1] != "150%"@[1]);
    assert("125%"@[1] != "150%"@[1]);
}

} // verus!
