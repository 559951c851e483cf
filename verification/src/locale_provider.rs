//! Languages and time zones: the current ones read from the system's files, the available
//! ones read from the output of `locale -va` and `timedatectl list-timezones`.
use vstd::prelude::*;
use crate::path::{comps_of, fold_comps, path_join, path_join_spec, timezone_of_link, zoneinfo_rest};
use vstd::utf8::{decode_utf8, valid_utf8};
use crate::text::{
    string_from_utf8,
    ascii_lower, chars_of, concat, is_ascii_alnum, is_ascii_lower, lines, lines_spec, push_char,
    split_once, split_once_spec, str_eq, strip_prefix, strip_prefix_spec, trim, trim_str, views,
};

verus! {

/// Reads and interprets the language and time zone settings of the system.
pub struct LocaleProvider;

/// A language or time zone: its code and the text it is shown by.
pub struct LanguageRegionEntry {
    pub code: String,
    pub display: String,
}

impl View for LanguageRegionEntry {
    type V = (Seq<char>, Seq<char>);

    open spec fn view(&self) -> (Seq<char>, Seq<char>) {
        (self.code@, self.display@)
    }
}

/// The views of entries.
pub open spec fn entries_view(v: Seq<LanguageRegionEntry>) -> Seq<(Seq<char>, Seq<char>)> {
    v.map_values(|e: LanguageRegionEntry| e@)
}

/// The languages and time zones to offer, and the current ones.
pub struct LanguageRegionData {
    pub languages: Vec<LanguageRegionEntry>,
    pub current_language: Option<String>,
    pub timezones: Vec<LanguageRegionEntry>,
    pub current_timezone: Option<String>,
}

/// Why a setting could not be read.
#[derive(Debug, Clone, Copy, PartialEq, Eq, Structural)]
pub enum LocaleError {
    /// `/etc/locale.conf` sets no `LANG`.
    LangNotFound,
    /// `/etc/localtime` points outside `/etc/zoneinfo`.
    NotInZoneinfo,
    /// A command printed text that is not valid UTF-8.
    InvalidUtf8,
}

/// The value of the first line `LANG=<value>`.
pub open spec fn lang_of_lines(ls: Seq<Seq<char>>) -> Option<Seq<char>>
    decreases ls.len(),
{
    if ls.len() == 0 {
        None
    } else {
        match split_once_spec(ls[0], '=') {
            Some(parts) => if parts.0 == "LANG"@ {
                Some(parts.1)
            } else {
                lang_of_lines(ls.drop_first())
            },
            None => lang_of_lines(ls.drop_first()),
        }
    }
}

/// A character set name with only its ASCII letters and digits, in lower case.
pub open spec fn charset_norm(s: Seq<char>) -> Seq<char>
    decreases s.len(),
{
    if s.len() == 0 {
        Seq::empty()
    } else {
        let r = charset_norm(s.drop_last());
        if is_ascii_alnum(s.last()) {
            r.push(ascii_lower(s.last()))
        } else {
            r
        }
    }
}

/// A locale name `<locale>.<charset>` with its character set name normalized.
pub open spec fn locale_norm(s: Seq<char>) -> Seq<char> {
    match split_once_spec(s, '.') {
        Some(parts) => parts.0 + seq!['.'] + charset_norm(parts.1),
        None => s,
    }
}

/// The current locale that `locale.conf` with `content` sets.
pub open spec fn current_locale_spec(content: Seq<char>) -> Option<Seq<char>> {
    match lang_of_lines(lines_spec(content)) {
        Some(v) => Some(locale_norm(v)),
        None => None,
    }
}

/// A time zone as it is shown: underscores become spaces.
pub open spec fn tz_display(tz: Seq<char>) -> Seq<char> {
    tz.map_values(|c: char| if c == '_' { ' ' } else { c })
}

/// The entries for the time zones that `timedatectl list-timezones` printed.
pub open spec fn timezones_spec(output: Seq<char>) -> Seq<(Seq<char>, Seq<char>)> {
    lines_spec(output).map_values(|tz: Seq<char>| (tz, tz_display(tz)))
}

/// What is known while reading `locale -va`: the locale, language and territory of the
/// record being read, and the entries of the records read.
pub struct LocaleScanV {
    pub locale: Option<Seq<char>>,
    pub lang: Option<Seq<char>>,
    pub terr: Option<Seq<char>>,
    pub out: Seq<(Seq<char>, Seq<char>)>,
}

/// How a locale is shown: `<language> (<territory>)`, the language alone, or the code.
pub open spec fn locale_display(
    loc: Seq<char>,
    lang: Option<Seq<char>>,
    terr: Option<Seq<char>>,
) -> Seq<char> {
    match lang {
        None => loc,
        Some(l) => match terr {
            Some(t) => l + " ("@ + t + ")"@,
            None => l,
        },
    }
}

/// A record ends: a locale whose code starts with a lower-case letter becomes an entry;
/// what was read of the record is forgotten once it had a locale.
pub open spec fn flush_record(st: LocaleScanV) -> LocaleScanV {
    match st.locale {
        Some(loc) => LocaleScanV {
            locale: None,
            lang: None,
            terr: None,
            out: if loc.len() > 0 && is_ascii_lower(loc[0]) {
                st.out.push((loc, locale_display(loc, st.lang, st.terr)))
            } else {
                st.out
            },
        },
        None => st,
    }
}

/// The settings of a record that a line gives, after an empty line ends the record.
pub open spec fn scan_line(st: LocaleScanV, line: Seq<char>) -> LocaleScanV {
    let st1 = if line.len() == 0 {
        flush_record(st)
    } else {
        st
    };
    let loc = match strip_prefix_spec(line, "locale: "@) {
        Some(r) => match split_once_spec(r, ' ') {
            Some(parts) => Some(parts.0),
            None => None,
        },
        None => None,
    };
    match loc {
        Some(l) => LocaleScanV { locale: Some(l), ..st1 },
        None => match strip_prefix_spec(line, "language | "@) {
            Some(l) => LocaleScanV { lang: Some(l), ..st1 },
            None => match strip_prefix_spec(line, "territory | "@) {
                Some(t) => LocaleScanV { terr: Some(t), ..st1 },
                None => st1,
            },
        },
    }
}

/// All lines read in turn.
pub open spec fn scan_lines(st: LocaleScanV, ls: Seq<Seq<char>>) -> LocaleScanV
    decreases ls.len(),
{
    if ls.len() == 0 {
        st
    } else {
        scan_lines(scan_line(st, ls[0]), ls.drop_first())
    }
}

/// Nothing read yet.
pub open spec fn scan_start() -> LocaleScanV {
    LocaleScanV { locale: None, lang: None, terr: None, out: Seq::empty() }
}

/// The entries for the locales that `locale -va` printed: its lines, trimmed, and an empty
/// line that ends the last record.
pub open spec fn locales_spec(output: Seq<char>) -> Seq<(Seq<char>, Seq<char>)> {
    scan_lines(scan_start(), lines_spec(output).map_values(|l: Seq<char>| trim(l)).push(Seq::empty())).out
}

/// Every entry made so far has a code that starts with a lower-case letter.
pub open spec fn entries_lowercase(out: Seq<(Seq<char>, Seq<char>)>) -> bool {
    forall|i: int| 0 <= i < out.len() ==> (#[trigger] out[i]).0.len() > 0 && is_ascii_lower(out[i].0[0])
}

proof fn lemma_scan_lines_lowercase(st: LocaleScanV, ls: Seq<Seq<char>>)
    requires
        entries_lowercase(st.out),
    ensures
        entries_lowercase(scan_lines(st, ls).out),
    decreases ls.len(),
{
    if ls.len() > 0 {
        let f = if ls[0].len() == 0 { flush_record(st) } else { st };
        assert(entries_lowercase(f.out)) by {
            if ls[0].len() == 0 {
                if let Some(loc) = st.locale {
                    if loc.len() > 0 && is_ascii_lower(loc[0]) {
                        let n = st.out.push((loc, locale_display(loc, st.lang, st.terr)));
                        assert forall|i: int| 0 <= i < n.len() implies (#[trigger] n[i]).0.len() > 0
                            && is_ascii_lower(n[i].0[0]) by {
                            if i < st.out.len() {
                                assert(n[i] == st.out[i]);
                            }
                        }
                    }
                }
            }
        }
        assert(scan_line(st, ls[0]).out == f.out);
        lemma_scan_lines_lowercase(scan_line(st, ls[0]), ls.drop_first());
    }
}

/// Only locales whose code starts with a lower-case letter are offered.
pub proof fn law_locale_codes_lowercase(output: Seq<char>)
    ensures
        entries_lowercase(locales_spec(output)),
{
    lemma_scan_lines_lowercase(
        scan_start(),
        lines_spec(output).map_values(|l: Seq<char>| trim(l)).push(Seq::empty()),
    );
}

/// The languages offered when `locale -va` could not be read.
pub open spec fn default_languages() -> Seq<(Seq<char>, Seq<char>)> {
    seq![("ar_AE.utf8"@, "Arabic (UAE)"@), ("en_US.utf8"@, "English (United States)"@)]
}

/// The time zones offered when `timedatectl` could not be read.
pub open spec fn default_timezones() -> Seq<(Seq<char>, Seq<char>)> {
    seq![("Europe/Helsinki"@, "Europe/Helsinki"@), ("Asia/Abu_Dhabi"@, "Asia/Abu Dhabi"@)]
}

/// The view of an optional string.
pub open spec fn opt_str(s: Option<String>) -> Option<Seq<char>> {
    match s {
        Some(x) => Some(x@),
        None => None,
    }
}

/// The index of the first entry whose code is `code`.
pub open spec fn entry_index(es: Seq<(Seq<char>, Seq<char>)>, code: Seq<char>) -> Option<int>
    decreases es.len(),
{
    if es.len() == 0 {
        None
    } else if es[0].0 == code {
        Some(0)
    } else {
        match entry_index(es.drop_first(), code) {
            Some(i) => Some(i + 1),
            None => None,
        }
    }
}

pub proof fn lemma_entry_index(es: Seq<(Seq<char>, Seq<char>)>, code: Seq<char>)
    ensures
        match entry_index(es, code) {
            Some(i) => 0 <= i < es.len() && es[i].0 == code && forall|j: int| 0 <= j < i ==> es[j].0 != code,
            None => forall|j: int| 0 <= j < es.len() ==> es[j].0 != code,
        },
    decreases es.len(),
{
    if es.len() > 0 && es[0].0 != code {
        let t = es.drop_first();
        lemma_entry_index(t, code);
        match entry_index(t, code) {
            Some(i) => {
                assert forall|j: int| 0 <= j < i + 1 implies es[j].0 != code by {
                    if j > 0 {
                        assert(es[j] == t[j - 1]);
                    }
                }
            },
            None => {
                assert forall|j: int| 0 <= j < es.len() implies es[j].0 != code by {
                    if j > 0 {
                        assert(es[j] == t[j - 1]);
                    }
                }
            },
        }
    }
}

/// An entry made of two strings.
fn entry(code: &str, display: &str) -> (r: LanguageRegionEntry)
    ensures
        r@ == (code@, display@),
{
    LanguageRegionEntry { code: code.to_owned(), display: display.to_owned() }
}

/// `c` with ASCII upper-case letters mapped to lower case.
fn to_ascii_lower(c: char) -> (r: char)
    ensures
        r == ascii_lower(c),
{
    if 'A' <= c && c <= 'Z' {
        let b: u8 = ((c as u32) + 32) as u8;
        b as char
    } else {
        c
    }
}

/// A character set name with only its ASCII letters and digits, in lower case.
fn normalize_charset(s: &str) -> (r: String)
    ensures
        r@ == charset_norm(s@),
{
    let v = chars_of(s);
    let mut r = String::new();
    let mut k: usize = 0;
    proof {
        assert(s@.take(0) =~= Seq::<char>::empty());
    }
    while k < v.len()
        invariant
            k <= v.len(),
            v@ == s@,
            r@ == charset_norm(s@.take(k as int)),
        decreases v.len() - k,
    {
        let c = v[k];
        proof {
            assert(s@.take(k + 1).drop_last() =~= s@.take(k as int));
            assert(s@.take(k + 1).last() == c);
        }
        if ('0' <= c && c <= '9') || ('a' <= c && c <= 'z') || ('A' <= c && c <= 'Z') {
            push_char(&mut r, to_ascii_lower(c));
        }
        k = k + 1;
    }
    proof {
        assert(s@.take(v.len() as int) =~= s@);
    }
    r
}

/// The state of a scan of `locale -va`: the locale, language and territory of the record
/// being read, and the entries of the records read.
struct LocaleScan {
    locale: Option<String>,
    lang: Option<String>,
    terr: Option<String>,
    out: Vec<LanguageRegionEntry>,
}

impl View for LocaleScan {
    type V = LocaleScanV;

    closed spec fn view(&self) -> LocaleScanV {
        LocaleScanV {
            locale: opt_str(self.locale),
            lang: opt_str(self.lang),
            terr: opt_str(self.terr),
            out: entries_view(self.out@),
        }
    }
}

impl LocaleScan {
    /// Ends the record being read.
    fn flush(&mut self)
        ensures
            final(self)@ == flush_record(old(self)@),
    {
        let taken = self.locale.take();
        match taken {
            Some(loc) => {
                let l = self.lang.take();
                let t = self.terr.take();
                let cs = chars_of(loc.as_str());
                if cs.len() > 0 && 'a' <= cs[0] && cs[0] <= 'z' {
                    let display = match l {
                        None => loc.clone(),
                        Some(lang) => match t {
                            Some(terr) => {
                                let a = concat(lang.as_str(), " (");
                                let b = concat(a.as_str(), terr.as_str());
                                concat(b.as_str(), ")")
                            },
                            None => lang,
                        },
                    };
                    let ghost before = entries_view(self.out@);
                    self.out.push(LanguageRegionEntry { code: loc, display });
                    proof {
                        assert(entries_view(self.out@) =~= before.push(
                            (cs@, locale_display(cs@, opt_str(l), opt_str(t))),
                        ));
                    }
                }
            },
            None => {},
        }
    }

    /// Reads one trimmed line.
    fn step(&mut self, line: &str)
        ensures
            final(self)@ == scan_line(old(self)@, line@),
    {
        if line.is_empty() {
            self.flush();
        }
        let loc_word = match strip_prefix(line, "locale: ") {
            Some(rest) => match split_once(rest.as_str(), ' ') {
                Some((a, _)) => Some(a),
                None => None,
            },
            None => None,
        };
        match loc_word {
            Some(a) => {
                self.locale = Some(a);
            },
            None => match strip_prefix(line, "language | ") {
                Some(l) => {
                    self.lang = Some(l);
                },
                None => match strip_prefix(line, "territory | ") {
                    Some(t) => {
                        self.terr = Some(t);
                    },
                    None => {},
                },
            },
        }
    }
}

impl LocaleProvider {
    /// `rel` resolved against `base` without looking at the file system.
    pub fn path_join(base: &str, rel: &str) -> (r: String)
        ensures
            r@ == path_join_spec(base@, rel@),
    {
        path_join(base, rel)
    }

    /// The current time zone from the target of the link `/etc/localtime`.
    pub fn get_current_timezone(target: &str) -> (r: Result<String, LocaleError>)
        ensures
            match zoneinfo_rest(fold_comps(Seq::empty(), comps_of("/etc"@) + comps_of(target@))) {
                Some(z) => r matches Ok(x) && x@ == z,
                None => r == Err::<String, LocaleError>(LocaleError::NotInZoneinfo),
            },
    {
        match timezone_of_link(target) {
            Some(z) => Ok(z),
            None => Err(LocaleError::NotInZoneinfo),
        }
    }

    /// The current locale from the content of `/etc/locale.conf`: the value of its first
    /// `LANG=` line, with the character set name normalized.
    pub fn get_current_locale(content: &str) -> (r: Result<String, LocaleError>)
        ensures
            match current_locale_spec(content@) {
                Some(v) => r matches Ok(x) && x@ == v,
                None => r == Err::<String, LocaleError>(LocaleError::LangNotFound),
            },
    {
        let ls = lines(content);
        let ghost lv = lines_spec(content@);
        let mut k: usize = 0;
        proof {
            assert(lv.skip(0) =~= lv);
        }
        while k < ls.len()
            invariant
                k <= ls.len(),
                views(ls@) == lv,
                lv == lines_spec(content@),
                lang_of_lines(lv.skip(k as int)) == lang_of_lines(lv),
            decreases ls.len() - k,
        {
            proof {
                assert(lv.skip(k as int)[0] == ls@[k as int]@);
                assert(lv.skip(k as int).drop_first() =~= lv.skip(k + 1));
            }
            match split_once(ls[k].as_str(), '=') {
                Some((var, val)) => {
                    if str_eq(var.as_str(), "LANG") {
                        let value = match split_once(val.as_str(), '.') {
                            Some((loc, cset)) => {
                                let mut r = loc;
                                push_char(&mut r, '.');
                                let n = normalize_charset(cset.as_str());
                                concat(r.as_str(), n.as_str())
                            },
                            None => val,
                        };
                        return Ok(value);
                    }
                },
                None => {},
            }
            k = k + 1;
        }
        proof {
            assert(lv.skip(ls.len() as int).len() == 0);
        }
        Err(LocaleError::LangNotFound)
    }

    /// A time zone as it is shown: underscores become spaces.
    pub fn get_timezone_display(tz: &str) -> (r: String)
        ensures
            r@ == tz_display(tz@),
    {
        let v = chars_of(tz);
        let mut r = String::new();
        let mut k: usize = 0;
        while k < v.len()
            invariant
                k <= v.len(),
                v@ == tz@,
                r@ == tz_display(tz@.take(k as int)),
            decreases v.len() - k,
        {
            let c = v[k];
            push_char(&mut r, if c == '_' { ' ' } else { c });
            proof {
                assert(tz_display(tz@.take(k + 1)) =~= tz_display(tz@.take(k as int)).push(if c == '_' { ' ' } else { c }));
            }
            k = k + 1;
        }
        proof {
            assert(tz@.take(v.len() as int) =~= tz@);
        }
        r
    }

    /// The time zones that `timedatectl list-timezones` printed, one per line.
    pub fn get_timezones(output: &str) -> (r: Vec<LanguageRegionEntry>)
        ensures
            entries_view(r@) == timezones_spec(output@),
    {
        let ls = lines(output);
        let ghost lv = lines_spec(output@);
        let mut r: Vec<LanguageRegionEntry> = Vec::new();
        let mut k: usize = 0;
        while k < ls.len()
            invariant
                k <= ls.len(),
                views(ls@) == lv,
                lv == lines_spec(output@),
                entries_view(r@) == timezones_spec(output@).take(k as int),
            decreases ls.len() - k,
        {
            let tz = ls[k].as_str();
            let d = LocaleProvider::get_timezone_display(tz);
            let ghost before = entries_view(r@);
            r.push(LanguageRegionEntry { code: ls[k].clone(), display: d });
            proof {
                assert(lv[k as int] == ls@[k as int]@);
                assert(entries_view(r@) =~= before.push((lv[k as int], tz_display(lv[k as int]))));
                assert(timezones_spec(output@).take(k + 1) =~= timezones_spec(output@).take(k as int).push((lv[k as int], tz_display(lv[k as int]))));
            }
            k = k + 1;
        }
        proof {
            assert(timezones_spec(output@).take(ls.len() as int) =~= timezones_spec(output@));
        }
        r
    }

    /// The locales that `locale -va` printed: one entry for each record whose locale code
    /// starts with a lower-case letter, shown by its language and territory.
    pub fn get_locales(output: &str) -> (r: Vec<LanguageRegionEntry>)
        ensures
            entries_view(r@) == locales_spec(output@),
    {
        let ls = lines(output);
        let ghost lv = lines_spec(output@);
        let ghost tl = lv.map_values(|l: Seq<char>| trim(l)).push(Seq::empty());
        let mut scan = LocaleScan { locale: None, lang: None, terr: None, out: Vec::new() };
        let mut k: usize = 0;
        proof {
            assert(tl.skip(0) =~= tl);
            assert(entries_view(scan.out@) =~= Seq::<(Seq<char>, Seq<char>)>::empty());
            assert(scan@ == scan_start());
        }
        while k < ls.len()
            invariant
                k <= ls.len(),
                views(ls@) == lv,
                tl == lv.map_values(|l: Seq<char>| trim(l)).push(Seq::empty()),
                tl.len() == ls.len() + 1,
                scan_lines(scan_start(), tl) == scan_lines(scan@, tl.skip(k as int)),
            decreases ls.len() - k,
        {
            let line = trim_str(ls[k].as_str());
            proof {
                assert(tl[k as int] == trim(lv[k as int]));
                assert(lv[k as int] == ls@[k as int]@);
                assert(tl.skip(k as int)[0] == tl[k as int]);
                assert(tl.skip(k as int).drop_first() =~= tl.skip(k + 1));
            }
            scan.step(line.as_str());
            k = k + 1;
        }
        let last = String::new();
        let ghost prev = scan@;
        proof {
            assert(tl.skip(k as int) =~= seq![Seq::<char>::empty()]);
            assert(tl.skip(k as int).drop_first().len() == 0);
            reveal_with_fuel(scan_lines, 2);
            assert(scan_lines(prev, tl.skip(k as int)) == scan_line(prev, Seq::<char>::empty()));
        }
        scan.step(last.as_str());
        assert(entries_view(scan.out@) == scan@.out);
        scan.out
    }

    /// The locales from the raw output of `locale -va`: an error when it is not valid
    /// UTF-8, else the entries that [`LocaleProvider::get_locales`] reads from its text.
    pub fn get_locales_from_bytes(output: Vec<u8>) -> (r: Result<Vec<LanguageRegionEntry>, LocaleError>)
        ensures
            valid_utf8(output@) ==> (r matches Ok(v) && entries_view(v@) == locales_spec(decode_utf8(output@))),
            !valid_utf8(output@) ==> r matches Err(LocaleError::InvalidUtf8),
    {
        match string_from_utf8(output) {
            Some(text) => Ok(LocaleProvider::get_locales(text.as_str())),
            None => Err(LocaleError::InvalidUtf8),
        }
    }

    /// The time zones from the raw output of `timedatectl list-timezones`: an error when it
    /// is not valid UTF-8, else the entries that [`LocaleProvider::get_timezones`] reads.
    pub fn get_timezones_from_bytes(output: Vec<u8>) -> (r: Result<Vec<LanguageRegionEntry>, LocaleError>)
        ensures
            valid_utf8(output@) ==> (r matches Ok(v) && entries_view(v@) == timezones_spec(decode_utf8(output@))),
            !valid_utf8(output@) ==> r matches Err(LocaleError::InvalidUtf8),
    {
        match string_from_utf8(output) {
            Some(text) => Ok(LocaleProvider::get_timezones(text.as_str())),
            None => Err(LocaleError::InvalidUtf8),
        }
    }

    /// The data for the language and region page from what could be read: the current
    /// locale and time zone (`None` when unreadable, then `en_US.utf8` and `UTC` stand in),
    /// and the locales and time zones on offer (`None` when unreadable, then a short default
    /// list stands in with its default current value).
    pub fn get_timezone_locale_info(
        current_locale: Option<String>,
        locales: Option<Vec<LanguageRegionEntry>>,
        current_timezone: Option<String>,
        timezones: Option<Vec<LanguageRegionEntry>>,
    ) -> (r: LanguageRegionData)
        ensures
            match locales {
                Some(l) => entries_view(r.languages@) == entries_view(l@) && opt_str(r.current_language) == Some(
                    match current_locale {
                        Some(c) => c@,
                        None => "en_US.utf8"@,
                    },
                ),
                None => entries_view(r.languages@) == default_languages() && opt_str(r.current_language)
                    == Some("en_US.utf8"@),
            },
            match timezones {
                Some(t) => entries_view(r.timezones@) == entries_view(t@) && opt_str(r.current_timezone) == Some(
                    match current_timezone {
                        Some(c) => c@,
                        None => "UTC"@,
                    },
                ),
                None => entries_view(r.timezones@) == default_timezones() && opt_str(r.current_timezone)
                    == Some("UTC"@),
            },
    {
        let (current_language, languages) = match locales {
            Some(l) => (Some(match current_locale {
                Some(c) => c,
                None => "en_US.utf8".to_owned(),
            }), l),
            None => {
                let mut v = Vec::new();
                v.push(entry("ar_AE.utf8", "Arabic (UAE)"));
                v.push(entry("en_US.utf8", "English (United States)"));
                assert(entries_view(v@) =~= default_languages());
                (Some("en_US.utf8".to_owned()), v)
            },
        };
        let (current_timezone, timezones) = match timezones {
            Some(t) => (Some(match current_timezone {
                Some(c) => c,
                None => "UTC".to_owned(),
            }), t),
            None => {
                let mut v = Vec::new();
                v.push(entry("Europe/Helsinki", "Europe/Helsinki"));
                v.push(entry("Asia/Abu_Dhabi", "Asia/Abu Dhabi"));
                assert(entries_view(v@) =~= default_timezones());
                (Some("UTC".to_owned()), v)
            },
        };
        LanguageRegionData { languages, current_language, timezones, current_timezone }
    }

    /// The index of the first entry with code `code`, if `code` is given and listed.
    pub fn index_of(entries: &Vec<LanguageRegionEntry>, code: Option<&str>) -> (r: Option<usize>)
        ensures
            match code {
                None => r is None,
                Some(c) => entry_index(entries_view(entries@), c@) == match r {
                    Some(k) => Some(k as int),
                    None => None::<int>,
                },
            },
    {
        let c = match code {
            Some(c) => c,
            None => return None,
        };
        let ghost es = entries_view(entries@);
        proof {
            lemma_entry_index(es, c@);
        }
        let mut k: usize = 0;
        while k < entries.len()
            invariant
                k <= entries.len(),
                code == Some(c),
                es == entries_view(entries@),
                forall|j: int| 0 <= j < k ==> es[j].0 != c@,
                match entry_index(es, c@) {
                    Some(i) => 0 <= i < es.len() && es[i].0 == c@ && forall|j: int| 0 <= j < i ==> es[j].0 != c@,
                    None => forall|j: int| 0 <= j < es.len() ==> es[j].0 != c@,
                },
            decreases entries.len() - k,
        {
            if str_eq(entries[k].code.as_str(), c) {
                assert(es[k as int].0 == c@);
                proof {
                    match entry_index(es, c@) {
                        Some(i) => {
                            if i < k {
                                assert(es[i].0 != c@);
                            }
                            if i > k {
                                assert(es[k as int].0 != c@);
                            }
                        },
                        None => {
                            assert(es[k as int].0 != c@);
                        },
                    }
                }
                return Some(k);
            }
            k = k + 1;
        }
        None
    }
}

} // verus!
