//! The about page: the system's security status as the host reports it, whether a YubiKey
//! is enrolled for a user, and the device id.
use vstd::prelude::*;
use crate::json::{json_accepts, json_value_of, json_view, parse_json};
use crate::text::{
    contains_str, has_infix, lines, lines_spec, lossy_text, owned, str_eq, string_from_utf8,
    string_from_utf8_lossy, trim, trim_str, views,
};
use vstd::utf8::{decode_utf8, valid_utf8};

verus! {

/// A JSON value, as `homectl` prints them; numbers are kept as their text.
pub enum JsonValue {
    Null,
    Bool(bool),
    Number(String),
    Str(String),
    Array(Vec<JsonValue>),
    Object(Vec<(String, JsonValue)>),
}

/// The value stored under `key` in the entries of an object, the first one if the key
/// occurs more than once.
pub open spec fn obj_get(entries: Seq<(String, JsonValue)>, key: Seq<char>) -> Option<JsonValue>
    decreases entries.len(),
{
    if entries.len() == 0 {
        None
    } else if entries[0].0@ == key {
        Some(entries[0].1)
    } else {
        obj_get(entries.subrange(1, entries.len() as int), key)
    }
}

/// The value is an array with at least one element.
pub open spec fn is_nonempty_array(v: JsonValue) -> bool {
    match v {
        JsonValue::Array(items) => items@.len() > 0,
        _ => false,
    }
}

/// Somewhere in the value an object holds a non-empty `fido2HmacCredential` array; an
/// object that has the key at all is judged by that key alone.
pub open spec fn has_fido2(v: JsonValue) -> bool
    decreases v,
{
    match v {
        JsonValue::Object(entries) => match obj_get(entries@, "fido2HmacCredential"@) {
            Some(f) => is_nonempty_array(f),
            None => any_entry_fido2(entries@),
        },
        JsonValue::Array(items) => any_fido2(items@),
        _ => false,
    }
}

/// Some value of the sequence passes `has_fido2`.
pub open spec fn any_fido2(s: Seq<JsonValue>) -> bool
    decreases s,
{
    if s.len() == 0 {
        false
    } else {
        has_fido2(s[0]) || any_fido2(s.subrange(1, s.len() as int))
    }
}

/// Some value of the object entries passes `has_fido2`.
pub open spec fn any_entry_fido2(s: Seq<(String, JsonValue)>) -> bool
    decreases s,
{
    if s.len() == 0 {
        false
    } else {
        has_fido2(s[0].1) || any_entry_fido2(s.subrange(1, s.len() as int))
    }
}

/// The `name` of an item of `homectl list -j`, when it is a string.
pub open spec fn item_name(item: JsonValue) -> Option<Seq<char>> {
    match item {
        JsonValue::Object(entries) => match obj_get(entries@, "name"@) {
            Some(JsonValue::Str(s)) => Some(s@),
            _ => None,
        },
        _ => None,
    }
}

/// The names of the items that have one, in order.
pub open spec fn names_of(items: Seq<JsonValue>) -> Seq<Seq<char>>
    decreases items.len(),
{
    if items.len() == 0 {
        Seq::empty()
    } else {
        let rest = names_of(items.drop_last());
        match item_name(items.last()) {
            Some(n) => rest.push(n),
            None => rest,
        }
    }
}

/// The user names that `homectl list -j` printed: those of the items of its array.
pub open spec fn usernames_spec(v: JsonValue) -> Seq<Seq<char>> {
    match v {
        JsonValue::Array(items) => names_of(items@),
        _ => Seq::empty(),
    }
}

/// The lines of `homectl inspect -j` that hold a record: those that are not blank.
pub open spec fn record_lines_spec(output: Seq<char>) -> Seq<Seq<char>> {
    lines_spec(output).filter(|l: Seq<char>| trim(l).len() > 0)
}

/// A status value as shown: trimmed, and "unknown" when nothing is left.
pub open spec fn normalized(s: Seq<char>) -> Seq<char> {
    if trim(s).len() == 0 {
        "unknown"@
    } else {
        trim(s)
    }
}

/// The markup for a status that may be on, off or unknown.
pub open spec fn bool_status_markup(status: Option<bool>) -> Seq<char> {
    match status {
        Some(true) => "<span weight=\"700\" foreground=\"#2f9e44\">Enabled</span>"@,
        Some(false) => "<span weight=\"700\" foreground=\"#ff0000\">Disabled</span>"@,
        None => "<span weight=\"600\" foreground=\"#6b7280\">Unknown</span>"@,
    }
}

/// How many times the host is asked before the page gives up.
pub const MAX_ATTEMPTS: usize = 6;

/// What the about page shows.
pub struct SystemStatus {
    pub ghaf_version: String,
    pub secure_boot: String,
    pub disk_encryption: String,
    pub yubikey_enrollment: String,
    pub device_id: String,
}

/// What the about page shows, as a mathematical value.
pub struct SystemStatusV {
    pub ghaf_version: Seq<char>,
    pub secure_boot: Seq<char>,
    pub disk_encryption: Seq<char>,
    pub yubikey_enrollment: Seq<char>,
    pub device_id: Seq<char>,
}

impl View for SystemStatus {
    type V = SystemStatusV;

    open spec fn view(&self) -> SystemStatusV {
        SystemStatusV {
            ghaf_version: self.ghaf_version@,
            secure_boot: self.secure_boot@,
            disk_encryption: self.disk_encryption@,
            yubikey_enrollment: self.yubikey_enrollment@,
            device_id: self.device_id@,
        }
    }
}

/// What the host reports of the system.
pub struct HostSysinfoStatus {
    pub ghaf_version: String,
    pub secure_boot: Option<bool>,
    pub disk_encryption: Option<bool>,
}

/// The value under `key` in the entries of an object.
fn get_entry<'a>(entries: &'a Vec<(String, JsonValue)>, key: &str) -> (r: Option<&'a JsonValue>)
    ensures
        obj_get(entries@, key@) == match r {
            Some(v) => Some(*v),
            None => None::<JsonValue>,
        },
{
    let mut k: usize = 0;
    proof {
        assert(entries@.subrange(0, entries@.len() as int) =~= entries@);
    }
    while k < entries.len()
        invariant
            k <= entries.len(),
            obj_get(entries@, key@) == obj_get(entries@.subrange(k as int, entries@.len() as int), key@),
        decreases entries.len() - k,
    {
        let ghost t = entries@.subrange(k as int, entries@.len() as int);
        proof {
            assert(t[0] == entries@[k as int]);
            assert(t.subrange(1, t.len() as int) =~= entries@.subrange(k + 1, entries@.len() as int));
        }
        if str_eq(entries[k].0.as_str(), key) {
            return Some(&entries[k].1);
        }
        k = k + 1;
    }
    None
}

/// Somewhere in the value an object holds a non-empty `fido2HmacCredential` array.
pub fn has_fido2_hmac_credential(value: &JsonValue) -> (r: bool)
    ensures
        r == has_fido2(*value),
    decreases value,
{
    match value {
        JsonValue::Object(entries) => {
            match get_entry(entries, "fido2HmacCredential") {
                Some(field) => {
                    return match field {
                        JsonValue::Array(items) => items.len() > 0,
                        _ => false,
                    };
                },
                None => {},
            }
            let mut k: usize = 0;
            let ghost s = entries@;
            proof {
                assert(s.subrange(0, s.len() as int) =~= s);
            }
            while k < entries.len()
                invariant
                    k <= entries.len(),
                    s == entries@,
                    *value == JsonValue::Object(*entries),
                    obj_get(s, "fido2HmacCredential"@) is None,
                    any_entry_fido2(s) == any_entry_fido2(s.subrange(k as int, s.len() as int)),
                decreases entries.len() - k,
            {
                let ghost t = s.subrange(k as int, s.len() as int);
                proof {
                    assert(t[0] == s[k as int]);
                    assert(t.subrange(1, t.len() as int) =~= s.subrange(k + 1, s.len() as int));
                    assert(decreases_to!(*value => (*value)->Object_0));
                    assert(decreases_to!(*entries => entries@));
                    assert(decreases_to!(entries@ => entries@[k as int]));
                    assert(decreases_to!(entries@[k as int] => entries@[k as int].1));
                    assert(decreases_to!(*value => entries@[k as int].1));
                }
                if has_fido2_hmac_credential(&entries[k].1) {
                    return true;
                }
                k = k + 1;
            }
            false
        },
        JsonValue::Array(items) => {
            let mut k: usize = 0;
            let ghost s = items@;
            proof {
                assert(s.subrange(0, s.len() as int) =~= s);
            }
            while k < items.len()
                invariant
                    k <= items.len(),
                    s == items@,
                    *value == JsonValue::Array(*items),
                    any_fido2(s) == any_fido2(s.subrange(k as int, s.len() as int)),
                decreases items.len() - k,
            {
                let ghost t = s.subrange(k as int, s.len() as int);
                proof {
                    assert(t[0] == s[k as int]);
                    assert(t.subrange(1, t.len() as int) =~= s.subrange(k + 1, s.len() as int));
                    assert(decreases_to!(*value => (*value)->Array_0));
                    assert(decreases_to!(*items => items@));
                    assert(decreases_to!(items@ => items@[k as int]));
                    assert(decreases_to!(*value => items@[k as int]));
                }
                if has_fido2_hmac_credential(&items[k]) {
                    return true;
                }
                k = k + 1;
            }
            false
        },
        _ => false,
    }
}

/// The user names that `homectl list -j` printed.
pub fn extract_homectl_usernames(value: &JsonValue) -> (r: Vec<String>)
    ensures
        views(r@) == usernames_spec(*value),
{
    let mut out: Vec<String> = Vec::new();
    match value {
        JsonValue::Array(items) => {
            let mut k: usize = 0;
            proof {
                assert(items@.take(0) =~= Seq::<JsonValue>::empty());
                assert(views(out@) =~= Seq::<Seq<char>>::empty());
            }
            while k < items.len()
                invariant
                    k <= items.len(),
                    views(out@) == names_of(items@.take(k as int)),
                decreases items.len() - k,
            {
                proof {
                    assert(items@.take(k + 1).drop_last() =~= items@.take(k as int));
                    assert(items@.take(k + 1).last() == items@[k as int]);
                }
                let ghost before = views(out@);
                match &items[k] {
                    JsonValue::Object(entries) => match get_entry(entries, "name") {
                        Some(JsonValue::Str(s)) => {
                            out.push(owned(s.as_str()));
                            assert(views(out@) =~= before.push(s@));
                        },
                        _ => {},
                    },
                    _ => {},
                }
                k = k + 1;
            }
            assert(items@.take(items.len() as int) =~= items@);
        },
        _ => {
            assert(views(out@) =~= Seq::<Seq<char>>::empty());
        },
    }
    out
}

/// The lines of `homectl inspect -j` that hold a record.
pub fn record_lines(output: &str) -> (r: Vec<String>)
    ensures
        views(r@) == record_lines_spec(output@),
{
    let ls = lines(output);
    let ghost lv = lines_spec(output@);
    let ghost pred = |l: Seq<char>| trim(l).len() > 0;
    let mut out: Vec<String> = Vec::new();
    let mut k: usize = 0;
    proof {
        reveal(Seq::filter);
        assert(views(out@) =~= lv.take(0).filter(pred));
    }
    while k < ls.len()
        invariant
            k <= ls.len(),
            views(ls@) == lv,
            lv == lines_spec(output@),
            pred == (|l: Seq<char>| trim(l).len() > 0),
            views(out@) == lv.take(k as int).filter(pred),
        decreases ls.len() - k,
    {
        proof {
            reveal(Seq::filter);
            assert(lv.take(k + 1).drop_last() =~= lv.take(k as int));
            assert(lv.take(k + 1).last() == ls@[k as int]@);
        }
        let t = trim_str(ls[k].as_str());
        if !t.as_str().is_empty() {
            let ghost before = views(out@);
            out.push(owned(ls[k].as_str()));
            assert(views(out@) =~= before.push(lv[k as int]));
        }
        k = k + 1;
    }
    assert(lv.take(ls.len() as int) =~= lv);
    out
}

/// The enrollment shown for the records of `homectl inspect -j`.
pub fn enrollment_of_records(records: &Vec<JsonValue>) -> (r: String)
    ensures
        r@ == (if any_fido2(records@) {
            "Enrolled"@
        } else {
            "Not enrolled"@
        }),
{
    let ghost s = records@;
    let mut k: usize = 0;
    proof {
        assert(s.subrange(0, s.len() as int) =~= s);
    }
    while k < records.len()
        invariant
            k <= records.len(),
            s == records@,
            any_fido2(s) == any_fido2(s.subrange(k as int, s.len() as int)),
        decreases records.len() - k,
    {
        let ghost t = s.subrange(k as int, s.len() as int);
        proof {
            assert(t[0] == s[k as int]);
            assert(t.subrange(1, t.len() as int) =~= s.subrange(k + 1, s.len() as int));
        }
        if has_fido2_hmac_credential(&records[k]) {
            return owned("Enrolled");
        }
        k = k + 1;
    }
    owned("Not enrolled")
}

/// What follows reading the user list of `homectl list -j`.
pub enum EnrollmentNext {
    /// The enrollment is known (`None`: it could not be found out).
    Finish(Option<String>),
    /// `homectl inspect -j` is run with these arguments.
    Inspect(Vec<String>),
}

/// The step after `homectl list -j`: its parsed output (`None` when the command failed or
/// its output did not parse) gives either the result or the inspection to run. With no
/// users, nothing is inspected and no YubiKey is enrolled.
pub fn enrollment_after_list(list: Option<JsonValue>) -> (r: EnrollmentNext)
    ensures
        match list {
            None => r matches EnrollmentNext::Finish(None),
            Some(v) => if usernames_spec(v).len() == 0 {
                r matches EnrollmentNext::Finish(Some(s)) && s@ == "Not enrolled"@
            } else {
                r matches EnrollmentNext::Inspect(args) && views(args@) == seq!["inspect"@, "-j"@]
                    + usernames_spec(v)
            },
        },
{
    match list {
        None => EnrollmentNext::Finish(None),
        Some(v) => {
            let users = extract_homectl_usernames(&v);
            if users.len() == 0 {
                EnrollmentNext::Finish(Some(owned("Not enrolled")))
            } else {
                let mut args: Vec<String> = Vec::new();
                args.push(owned("inspect"));
                args.push(owned("-j"));
                let mut k: usize = 0;
                assert(views(args@) =~= seq!["inspect"@, "-j"@] + views(users@).take(0));
                while k < users.len()
                    invariant
                        k <= users.len(),
                        views(args@) == seq!["inspect"@, "-j"@] + views(users@).take(k as int),
                    decreases users.len() - k,
                {
                    let ghost before = views(args@);
                    args.push(owned(users[k].as_str()));
                    assert(views(users@).take(k + 1) =~= views(users@).take(k as int).push(users@[k as int]@));
                    assert(views(args@) =~= before.push(users@[k as int]@));
                    k = k + 1;
                }
                assert(views(users@).take(users.len() as int) =~= views(users@));
                EnrollmentNext::Inspect(args)
            }
        },
    }
}

/// The step after `homectl inspect -j`: its parsed records (`None` when the command failed
/// or a record did not parse) give the enrollment.
pub fn enrollment_after_inspect(records: Option<Vec<JsonValue>>) -> (r: Option<String>)
    ensures
        match records {
            None => r is None,
            Some(rs) => r matches Some(s) && s@ == (if any_fido2(rs@) {
                "Enrolled"@
            } else {
                "Not enrolled"@
            }),
        },
{
    match records {
        None => None,
        Some(rs) => Some(enrollment_of_records(&rs)),
    }
}

/// The parsed output of `homectl list -j`: `None` exactly when it is not valid UTF-8 or
/// not JSON.
pub fn parse_user_list(stdout: Vec<u8>) -> (r: Option<JsonValue>)
    ensures
        r is Some <==> valid_utf8(stdout@) && json_accepts(decode_utf8(stdout@)),
        r matches Some(v) ==> json_view(v) == json_value_of(decode_utf8(stdout@)),
{
    match string_from_utf8(stdout) {
        None => None,
        Some(text) => parse_json(text.as_str()),
    }
}

/// The parsed records of `homectl inspect -j`, one JSON value per line that is not blank, in
/// order: `None` exactly when a record does not parse.
pub fn parse_inspect_records(stdout: &Vec<u8>) -> (r: Option<Vec<JsonValue>>)
    ensures
        r is Some <==> forall|i: int|
            0 <= i < record_lines_spec(lossy_text(stdout@)).len() ==> json_accepts(
                #[trigger] record_lines_spec(lossy_text(stdout@))[i],
            ),
        r matches Some(rs) ==> rs.len() == record_lines_spec(lossy_text(stdout@)).len() && forall|i: int|
            0 <= i < rs.len() ==> #[trigger] json_view(rs[i]) == json_value_of(
                record_lines_spec(lossy_text(stdout@))[i],
            ),
{
    let text = string_from_utf8_lossy(stdout);
    let ls = record_lines(text.as_str());
    let ghost lv = record_lines_spec(lossy_text(stdout@));
    let mut out: Vec<JsonValue> = Vec::new();
    let mut k: usize = 0;
    while k < ls.len()
        invariant
            k <= ls.len(),
            views(ls@) == lv,
            lv == record_lines_spec(lossy_text(stdout@)),
            out.len() == k,
            forall|i: int| 0 <= i < k ==> json_accepts(#[trigger] lv[i]),
            forall|i: int| 0 <= i < k ==> #[trigger] json_view(out@[i]) == json_value_of(lv[i]),
        decreases ls.len() - k,
    {
        assert(ls@[k as int]@ == lv[k as int]);
        match parse_json(ls[k].as_str()) {
            None => {
                assert(!json_accepts(lv[k as int]));
                return None;
            },
            Some(v) => out.push(v),
        }
        k = k + 1;
    }
    Some(out)
}

/// The enrollment shown, or "unknown" when it could not be found out.
pub fn enrollment_or_unknown(found: Option<String>) -> (r: String)
    ensures
        r@ == match found {
            Some(s) => s@,
            None => "unknown"@,
        },
{
    match found {
        Some(s) => s,
        None => owned("unknown"),
    }
}

/// A status value as shown: trimmed, and "unknown" when nothing is left.
pub fn normalize_status_value(output: &str) -> (r: String)
    ensures
        r@ == normalized(output@),
{
    let value = trim_str(output);
    if value.as_str().is_empty() {
        owned("unknown")
    } else {
        value
    }
}

/// The device id from the content of `/etc/common/device-id`, or "unknown" when it could
/// not be read or is blank.
pub fn detect_device_id(content: Option<String>) -> (r: String)
    ensures
        r@ == match content {
            Some(c) => normalized(c@),
            None => "unknown"@,
        },
{
    match content {
        Some(c) => normalize_status_value(c.as_str()),
        None => owned("unknown"),
    }
}

/// The markup shown while the status is being read.
pub fn format_status_loading_markup() -> (r: &'static str)
    ensures
        r@ == "<span weight=\"600\">loading...</span>"@,
{
    "<span weight=\"600\">loading...</span>"
}

/// The markup for a status that may be on, off or unknown.
pub fn format_optional_bool_status(status: Option<bool>) -> (r: &'static str)
    ensures
        r@ == bool_status_markup(status),
{
    match status {
        Some(true) => "<span weight=\"700\" foreground=\"#2f9e44\">Enabled</span>",
        Some(false) => "<span weight=\"700\" foreground=\"#ff0000\">Disabled</span>",
        None => "<span weight=\"600\" foreground=\"#6b7280\">Unknown</span>",
    }
}

/// After the failed try number `attempt`: the host is asked again only when it was not yet
/// connected and tries are left.
pub fn should_retry(attempt: usize, error_message: &str) -> (r: bool)
    ensures
        r == (has_infix(error_message@, "Not connected"@) && attempt < MAX_ATTEMPTS),
{
    let not_connected = contains_str(error_message, "Not connected");
    not_connected && attempt < MAX_ATTEMPTS
}

impl SystemStatus {
    /// What the page shows from the host's report.
    pub fn from_host(status: HostSysinfoStatus, yubikey_enrollment: String, device_id: String) -> (r: Self)
        ensures
            r@ == (SystemStatusV {
                ghaf_version: normalized(status.ghaf_version@),
                secure_boot: bool_status_markup(status.secure_boot),
                disk_encryption: bool_status_markup(status.disk_encryption),
                yubikey_enrollment: yubikey_enrollment@,
                device_id: device_id@,
            }),
    {
        SystemStatus {
            ghaf_version: normalize_status_value(status.ghaf_version.as_str()),
            secure_boot: owned(format_optional_bool_status(status.secure_boot)),
            disk_encryption: owned(format_optional_bool_status(status.disk_encryption)),
            yubikey_enrollment,
            device_id,
        }
    }

    /// What the page shows when the host did not answer.
    pub fn host_unavailable(yubikey_enrollment: String, device_id: String) -> (r: Self)
        ensures
            r@ == (SystemStatusV {
                ghaf_version: "unknown"@,
                secure_boot: "unknown"@,
                disk_encryption: "unknown"@,
                yubikey_enrollment: yubikey_enrollment@,
                device_id: device_id@,
            }),
    {
        SystemStatus {
            ghaf_version: owned("unknown"),
            secure_boot: owned("unknown"),
            disk_encryption: owned("unknown"),
            yubikey_enrollment,
            device_id,
        }
    }

    /// What the page shows while the status is read.
    pub fn loading() -> (r: Self)
        ensures
            r@ == (SystemStatusV {
                ghaf_version: "loading..."@,
                secure_boot: "<span weight=\"600\">loading...</span>"@,
                disk_encryption: "<span weight=\"600\">loading...</span>"@,
                yubikey_enrollment: "loading..."@,
                device_id: "loading..."@,
            }),
    {
        SystemStatus {
            ghaf_version: owned("loading..."),
            secure_boot: owned(format_status_loading_markup()),
            disk_encryption: owned(format_status_loading_markup()),
            yubikey_enrollment: owned("loading..."),
            device_id: owned("loading..."),
        }
    }

    /// What the page shows when the application cannot be reached.
    pub fn no_application() -> (r: Self)
        ensures
            r@ == (SystemStatusV {
                ghaf_version: "unknown"@,
                secure_boot: bool_status_markup(None),
                disk_encryption: bool_status_markup(None),
                yubikey_enrollment: "unknown"@,
                device_id: "unknown"@,
            }),
    {
        SystemStatus {
            ghaf_version: owned("unknown"),
            secure_boot: owned(format_optional_bool_status(None)),
            disk_encryption: owned(format_optional_bool_status(None)),
            yubikey_enrollment: owned("unknown"),
            device_id: owned("unknown"),
        }
    }
}

/// What follows one question to the host about the system's status.
pub enum FetchStep {
    /// The page shows this.
    Show(SystemStatus),
    /// The host is asked again after a pause; this is the number of the next try.
    Retry(usize),
}

impl SystemStatus {
    /// What follows try number `attempt`: the host's answer is shown; a failure while the
    /// host is not yet connected is retried while tries are left; any other failure, or the
    /// last one, shows the status as unknown.
    pub fn after_attempt(
        attempt: usize,
        answer: Result<HostSysinfoStatus, String>,
        yubikey_enrollment: String,
        device_id: String,
    ) -> (r: FetchStep)
        requires
            1 <= attempt <= MAX_ATTEMPTS,
        ensures
            match answer {
                Ok(status) => r matches FetchStep::Show(s) && s@ == (SystemStatusV {
                    ghaf_version: normalized(status.ghaf_version@),
                    secure_boot: bool_status_markup(status.secure_boot),
                    disk_encryption: bool_status_markup(status.disk_encryption),
                    yubikey_enrollment: yubikey_enrollment@,
                    device_id: device_id@,
                }),
                Err(m) => if has_infix(m@, "Not connected"@) && attempt < MAX_ATTEMPTS {
                    r == FetchStep::Retry((attempt + 1) as usize)
                } else {
                    r matches FetchStep::Show(s) && s@ == (SystemStatusV {
                        ghaf_version: "unknown"@,
                        secure_boot: "unknown"@,
                        disk_encryption: "unknown"@,
                        yubikey_enrollment: yubikey_enrollment@,
                        device_id: device_id@,
                    })
                },
            },
    {
        match answer {
            Ok(status) => FetchStep::Show(SystemStatus::from_host(status, yubikey_enrollment, device_id)),
            Err(m) => if should_retry(attempt, m.as_str()) {
                FetchStep::Retry(attempt + 1)
            } else {
                FetchStep::Show(SystemStatus::host_unavailable(yubikey_enrollment, device_id))
            },
        }
    }
}

/// The host is asked at most `MAX_ATTEMPTS` times: a retry always names a try within the
/// limit, and after the last try no retry follows.
pub proof fn law_retries_bounded(attempt: usize, msg: Seq<char>)
    requires
        1 <= attempt <= MAX_ATTEMPTS,
    ensures
        (has_infix(msg, "Not connected"@) && attempt < MAX_ATTEMPTS) ==> attempt + 1 <= MAX_ATTEMPTS,
        attempt == MAX_ATTEMPTS ==> !(has_infix(msg, "Not connected"@) && attempt < MAX_ATTEMPTS),
{
}

/// A value that holds a credential anywhere holds it within an element: an array has a
/// credential exactly when one of its elements has.
pub proof fn law_array_fido2(s: Seq<JsonValue>)
    ensures
        any_fido2(s) <==> exists|i: int| 0 <= i < s.len() && #[trigger] has_fido2(s[i]),
    decreases s.len(),
{
    if s.len() > 0 {
        let t = s.subrange(1, s.len() as int);
        law_array_fido2(t);
        if any_fido2(s) {
            if has_fido2(s[0]) {
                assert(has_fido2(s[0]));
            } else {
                let i = choose|i: int| 0 <= i < t.len() && #[trigger] has_fido2(t[i]);
                assert(t[i] == s[i + 1]);
                assert(has_fido2(s[i + 1]));
            }
        }
        if exists|i: int| 0 <= i < s.len() && #[trigger] has_fido2(s[i]) {
            let i = choose|i: int| 0 <= i < s.len() && #[trigger] has_fido2(s[i]);
            if i > 0 {
                assert(t[i - 1] == s[i]);
                assert(has_fido2(t[i - 1]));
            }
        }
    }
}

} // verus!
