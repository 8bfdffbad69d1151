//! File names of stored clips, expanded from the configured template.
use vstd::prelude::*;
use vstd::string::StringExecFns;
use crate::events::{detection_type_spec, joined_names, EventType, ProtectEvent, SmartDetectType};
use crate::text::{occurs_at, replace_all, replace_spec};

verus! {

/// The text that chrono's `format(pattern)` renders for the UTC instant
/// `millis` milliseconds after the epoch.
pub uninterp spec fn utc_format_of(millis: int, pattern: Seq<char>) -> Seq<char>;

/// The patterns the library renders instants with.
pub open spec fn known_pattern(pattern: Seq<char>) -> bool {
    pattern == "%Y-%m-%d"@ || pattern == "%H-%M-%S"@ || pattern == "%Y-%m-%d_%H-%M-%S"@
}

/// The UTC calendar date (`YYYY-MM-DD`) of the instant `millis`.
pub open spec fn utc_date_of(millis: int) -> Seq<char> {
    utc_format_of(millis, "%Y-%m-%d"@)
}

/// The UTC time of day (`HH-MM-SS`) of the instant `millis`.
pub open spec fn utc_clock_of(millis: int) -> Seq<char> {
    utc_format_of(millis, "%H-%M-%S"@)
}

/// Instants that chrono can represent with room to spare: within about
/// 253,000 years of the epoch.
pub open spec fn representable(millis: int) -> bool {
    -8_000_000_000_000_000 <= millis <= 8_000_000_000_000_000
}

/// Relies on chrono's `DateTime::<Utc>::from_timestamp_millis`, which gives
/// a value for every instant within about 262,000 years of the common era,
/// and on its `format(pattern)`, whose text depends on that instant and the
/// pattern alone (each known pattern is well formed, so rendering cannot
/// fail). The known patterns hold only numeric fields, which chrono writes
/// as digits with an optional sign, and the separators `-` and `_`: the
/// text holds no `{`.
#[verifier::external_body]
pub(crate) fn utc_format(millis: i64, pattern: &str) -> (r: Option<String>)
    requires
        known_pattern(pattern@),
    ensures
        representable(millis as int) ==> r is Some,
        r matches Some(s) ==> s@ == utc_format_of(millis as int, pattern@) && brace_free(s@),
{
    match chrono::DateTime::<chrono::Utc>::from_timestamp_millis(millis) {
        Some(d) => Some(d.format(pattern).to_string()),
        None => None,
    }
}

/// The values that the template's tokens stand for.
pub struct TemplateValues {
    pub camera_name: String,
    pub camera_id: String,
    pub date: String,
    pub time: String,
    pub end_time: String,
    pub detection_type: String,
    pub event_id: String,
}

/// Each token replaced in turn by its value: `{camera_name}`,
/// `{camera_id}`, `{date}`, `{time}`, `{end_time}`, `{detection_type}`,
/// `{event_id}`.
pub open spec fn render_spec(
    fmt: Seq<char>,
    camera_name: Seq<char>,
    camera_id: Seq<char>,
    date: Seq<char>,
    time: Seq<char>,
    end_time: Seq<char>,
    detection_type: Seq<char>,
    event_id: Seq<char>,
) -> Seq<char> {
    let s1 = replace_spec(fmt, "{camera_name}"@, camera_name);
    let s2 = replace_spec(s1, "{camera_id}"@, camera_id);
    let s3 = replace_spec(s2, "{date}"@, date);
    let s4 = replace_spec(s3, "{time}"@, time);
    let s5 = replace_spec(s4, "{end_time}"@, end_time);
    let s6 = replace_spec(s5, "{detection_type}"@, detection_type);
    replace_spec(s6, "{event_id}"@, event_id)
}

pub open spec fn render_values(fmt: Seq<char>, v: TemplateValues) -> Seq<char> {
    render_spec(fmt, v.camera_name@, v.camera_id@, v.date@, v.time@, v.end_time@, v.detection_type@, v.event_id@)
}

/// Expands `format_string` with `values`.
pub fn render_filename(format_string: &str, values: &TemplateValues) -> (r: String)
    ensures
        r@ == render_values(format_string@, *values),
{
    proof {
        reveal_strlit("{camera_name}");
        reveal_strlit("{camera_id}");
        reveal_strlit("{date}");
        reveal_strlit("{time}");
        reveal_strlit("{end_time}");
        reveal_strlit("{detection_type}");
        reveal_strlit("{event_id}");
    }
    let s1 = replace_all(format_string, "{camera_name}", values.camera_name.as_str());
    let s2 = replace_all(s1.as_str(), "{camera_id}", values.camera_id.as_str());
    let s3 = replace_all(s2.as_str(), "{date}", values.date.as_str());
    let s4 = replace_all(s3.as_str(), "{time}", values.time.as_str());
    let s5 = replace_all(s4.as_str(), "{end_time}", values.end_time.as_str());
    let s6 = replace_all(s5.as_str(), "{detection_type}", values.detection_type.as_str());
    replace_all(s6.as_str(), "{event_id}", values.event_id.as_str())
}

/// The instant an event's file is dated by: `t` when chrono can show it,
/// else the present `now`, else the epoch.
pub open spec fn reference_millis(t: Option<i64>, now: i64) -> int {
    match t {
        Some(m) => if representable(m as int) { m as int } else if representable(now as int) { now as int } else { 0 },
        None => if representable(now as int) { now as int } else { 0 },
    }
}

/// The token values of event `e` when the present is `now`.
pub open spec fn event_values_spec(e: ProtectEvent, now: i64) -> (Seq<char>, Seq<char>, Seq<char>, Seq<char>) {
    (
        match e.camera_name {
            Some(n) => n@,
            None => "Unknown"@,
        },
        utc_date_of(reference_millis(e.start_time, now)),
        utc_clock_of(reference_millis(e.start_time, now)),
        match e.end_time {
            Some(t) => utc_clock_of(reference_millis(Some(t), now)),
            None => "ongoing"@,
        },
    )
}

/// The file name of event `e` for template `fmt` when the present is `now`.
pub open spec fn filename_spec(e: ProtectEvent, fmt: Seq<char>, now: i64) -> Seq<char> {
    let (name, date, time, end) = event_values_spec(e, now);
    render_spec(
        fmt,
        name,
        e.camera_id@,
        date,
        time,
        end,
        detection_type_spec(e.event_type, e.smart_detect_types@),
        e.id@,
    )
}

pub(crate) fn reference(t: Option<i64>, now: i64) -> (r: i64)
    ensures
        r as int == reference_millis(t, now),
        representable(r as int),
{
    let limit: i64 = 8_000_000_000_000_000;
    let ok_now = -limit <= now && now <= limit;
    match t {
        Some(m) => if -limit <= m && m <= limit { m } else if ok_now { now } else { 0 },
        None => if ok_now { now } else { 0 },
    }
}

fn date_text(millis: i64) -> (r: String)
    requires
        representable(millis as int),
    ensures
        r@ == utc_date_of(millis as int),
        brace_free(r@),
{
    match utc_format(millis, "%Y-%m-%d") {
        Some(s) => s,
        None => String::new(),
    }
}

fn clock_text(millis: i64) -> (r: String)
    requires
        representable(millis as int),
    ensures
        r@ == utc_clock_of(millis as int),
        brace_free(r@),
{
    match utc_format(millis, "%H-%M-%S") {
        Some(s) => s,
        None => String::new(),
    }
}

impl ProtectEvent {
    /// The token values of this event when the present is `now_millis`.
    pub fn template_values(&self, now_millis: i64) -> (r: TemplateValues)
        ensures
            (r.camera_name@, r.date@, r.time@, r.end_time@) == event_values_spec(*self, now_millis),
            r.camera_id@ == self.camera_id@,
            r.detection_type@ == detection_type_spec(self.event_type, self.smart_detect_types@),
            r.event_id@ == self.id@,
            brace_free(r.date@) && brace_free(r.time@) && brace_free(r.end_time@),
            brace_free(r.detection_type@),
    {
        proof {
            reveal_strlit("ongoing");
            lemma_detection_brace_free(self.event_type, self.smart_detect_types@);
        }
        let start = reference(self.start_time, now_millis);
        let end_time = match self.end_time {
            Some(t) => clock_text(reference(Some(t), now_millis)),
            None => String::from_str("ongoing"),
        };
        TemplateValues {
            camera_name: match &self.camera_name {
                Some(n) => n.clone(),
                None => String::from_str("Unknown"),
            },
            camera_id: self.camera_id.clone(),
            date: date_text(start),
            time: clock_text(start),
            end_time,
            detection_type: self.format_detection_type(),
            event_id: self.id.clone(),
        }
    }

    /// The file name of this event for `format_string` when the present
    /// is `now_millis` (which dates an event without a usable start).
    pub fn format_filename_at(&self, format_string: &str, now_millis: i64) -> (r: String)
        ensures
            r@ == filename_spec(*self, format_string@, now_millis),
    {
        let values = self.template_values(now_millis);
        render_filename(format_string, &values)
    }

    /// The file name of this event for `format_string`; an event without
    /// a start that chrono can show is dated at the epoch. Expanding the
    /// result again changes nothing when every `{` of the template opens a
    /// token and the event's own texts hold no `{`.
    pub fn format_filename(&self, format_string: &str) -> (r: String)
        ensures
            r@ == filename_of(*self, format_string@),
            braces_open_tokens(format_string@, template_tokens()) && brace_free(camera_label(*self))
                && brace_free(self.camera_id@) && brace_free(self.id@) ==> filename_of(*self, r@) == r@,
    {
        let values = self.template_values(0);
        let r = render_filename(format_string, &values);
        proof {
            if braces_open_tokens(format_string@, template_tokens()) && brace_free(camera_label(*self))
                && brace_free(self.camera_id@) && brace_free(self.id@) {
                lemma_render_twice(
                    format_string@,
                    values.camera_name@,
                    values.camera_id@,
                    values.date@,
                    values.time@,
                    values.end_time@,
                    values.detection_type@,
                    values.event_id@,
                );
            }
        }
        r
    }
}

/// The name the event's camera goes by in file names.
pub open spec fn camera_label(e: ProtectEvent) -> Seq<char> {
    match e.camera_name {
        Some(n) => n@,
        None => "Unknown"@,
    }
}

/// The file name of event `e` for template `fmt`, with an event that has
/// no start chrono can show dated at the epoch.
pub open spec fn filename_of(e: ProtectEvent, fmt: Seq<char>) -> Seq<char> {
    filename_spec(e, fmt, 0)
}

proof fn lemma_concat_brace_free(a: Seq<char>, b: Seq<char>)
    requires
        brace_free(a),
        brace_free(b),
    ensures
        brace_free(a + b),
{
    assert forall|i: int| 0 <= i < (a + b).len() implies (a + b)[i] != '{' by {
        if i < a.len() {
            assert((a + b)[i] == a[i]);
        } else {
            assert((a + b)[i] == b[i - a.len()]);
        }
    }
}

proof fn lemma_names_brace_free(types: Seq<SmartDetectType>)
    ensures
        brace_free(joined_names(types)),
    decreases types.len(),
{
    reveal_strlit("person");
    reveal_strlit("vehicle");
    reveal_strlit("package");
    reveal_strlit("animal");
    reveal_strlit("face");
    reveal_strlit("license_plate");
    reveal_strlit("_");
    if types.len() == 1 {
        assert(brace_free(types[0].name_spec()));
    } else if types.len() > 1 {
        lemma_names_brace_free(types.drop_last());
        assert(brace_free(types.last().name_spec()));
        lemma_concat_brace_free(joined_names(types.drop_last()), "_"@);
        lemma_concat_brace_free(joined_names(types.drop_last()) + "_"@, types.last().name_spec());
    }
}

proof fn lemma_detection_brace_free(t: EventType, types: Seq<SmartDetectType>)
    ensures
        brace_free(detection_type_spec(t, types)),
{
    reveal_strlit("motion");
    reveal_strlit("ring");
    reveal_strlit("line");
    reveal_strlit("smart_detect");
    if t == EventType::SmartDetect && types.len() > 0 {
        lemma_names_brace_free(types);
    }
}

/// No `{` in `s`.
pub open spec fn brace_free(s: Seq<char>) -> bool {
    forall|i: int| 0 <= i < s.len() ==> s[i] != '{'
}

/// A token: a `{` followed by characters none of which is `{`.
pub open spec fn token_shaped(t: Seq<char>) -> bool {
    t.len() > 0 && t[0] == '{' && brace_free(t.drop_first())
}

/// Every `{` in `s` begins an occurrence of one of `toks`.
pub open spec fn braces_open_tokens(s: Seq<char>, toks: Set<Seq<char>>) -> bool {
    forall|i: int| #![trigger s[i]]
        0 <= i < s.len() && s[i] == '{' ==> exists|t: Seq<char>| #[trigger] toks.contains(t) && occurs_at(s, t, i)
}

/// The seven tokens that a template may use.
pub open spec fn template_tokens() -> Set<Seq<char>> {
    set![
        "{camera_name}"@,
        "{camera_id}"@,
        "{date}"@,
        "{time}"@,
        "{end_time}"@,
        "{detection_type}"@,
        "{event_id}"@,
    ]
}

proof fn lemma_replace_brace_free_identity(s: Seq<char>, pat: Seq<char>, rep: Seq<char>)
    requires
        brace_free(s),
        pat.len() > 0,
        pat[0] == '{',
    ensures
        replace_spec(s, pat, rep) == s,
    decreases s.len(),
{
    if s.len() >= pat.len() {
        assert(s.subrange(0, pat.len() as int)[0] != pat[0]);
        lemma_replace_brace_free_identity(s.drop_first(), pat, rep);
        assert(seq![s[0]] + s.drop_first() =~= s);
    }
}

proof fn lemma_replace_keeps_brace_free_prefix(x: Seq<char>, pat: Seq<char>, rep: Seq<char>, k: int)
    requires
        0 <= k <= x.len(),
        brace_free(x.subrange(0, k)),
        pat.len() > 0,
        pat[0] == '{',
    ensures
        k <= replace_spec(x, pat, rep).len(),
        replace_spec(x, pat, rep).subrange(0, k) == x.subrange(0, k),
    decreases x.len(),
{
    let r = replace_spec(x, pat, rep);
    if x.len() < pat.len() {
    } else if x.subrange(0, pat.len() as int) == pat {
        if k > 0 {
            assert(x.subrange(0, k)[0] == x[0]);
            assert(x.subrange(0, pat.len() as int)[0] == x[0]);
        }
    } else if k > 0 {
        let y = x.drop_first();
        assert(brace_free(y.subrange(0, k - 1))) by {
            assert forall|i: int| 0 <= i < k - 1 implies #[trigger] y.subrange(0, k - 1)[i] != '{' by {
                assert(y.subrange(0, k - 1)[i] == x.subrange(0, k)[i + 1]);
            }
        }
        lemma_replace_keeps_brace_free_prefix(y, pat, rep, k - 1);
        assert(r.subrange(0, k) =~= x.subrange(0, k)) by {
            assert forall|i: int| 0 <= i < k implies #[trigger] r.subrange(0, k)[i] == x.subrange(0, k)[i] by {
                if i > 0 {
                    assert(r[i] == replace_spec(y, pat, rep)[i - 1]);
                    assert(replace_spec(y, pat, rep).subrange(0, k - 1)[i - 1] == y.subrange(0, k - 1)[i - 1]);
                }
            }
        }
    }
}

proof fn lemma_occurs_shift(a: Seq<char>, b: Seq<char>, t: Seq<char>, j: int)
    requires
        occurs_at(b, t, j),
    ensures
        occurs_at(a + b, t, a.len() + j),
{
    assert((a + b).subrange(a.len() + j, a.len() + j + t.len()) =~= b.subrange(j, j + t.len()));
}

proof fn lemma_occurs_suffix(s: Seq<char>, d: int, t: Seq<char>, j: int)
    requires
        0 <= d <= s.len(),
        0 <= j,
        occurs_at(s, t, d + j),
    ensures
        occurs_at(s.subrange(d, s.len() as int), t, j),
{
    assert(s.subrange(d, s.len() as int).subrange(j, j + t.len()) =~= s.subrange(d + j, d + j + t.len()));
}

proof fn lemma_braces_suffix(s: Seq<char>, d: int, toks: Set<Seq<char>>)
    requires
        0 <= d <= s.len(),
        braces_open_tokens(s, toks),
    ensures
        braces_open_tokens(s.subrange(d, s.len() as int), toks),
{
    let x = s.subrange(d, s.len() as int);
    assert forall|j: int| #![trigger x[j]] 0 <= j < x.len() && x[j] == '{' implies exists|t: Seq<char>|
        #[trigger] toks.contains(t) && occurs_at(x, t, j) by {
        assert(s[d + j] == '{');
        let t = choose|t: Seq<char>| #[trigger] toks.contains(t) && occurs_at(s, t, d + j);
        lemma_occurs_suffix(s, d, t, j);
    }
}

/// Replacing the token `pat` by brace-free text removes it from the tokens
/// that braces can open.
proof fn lemma_replace_consumes_token(s: Seq<char>, pat: Seq<char>, rep: Seq<char>, toks: Set<Seq<char>>)
    requires
        braces_open_tokens(s, toks),
        forall|t: Seq<char>| #[trigger] toks.contains(t) ==> token_shaped(t),
        token_shaped(pat),
        brace_free(rep),
    ensures
        braces_open_tokens(replace_spec(s, pat, rep), toks.remove(pat)),
    decreases s.len(),
{
    let r = replace_spec(s, pat, rep);
    let rest = toks.remove(pat);
    if s.len() < pat.len() {
        assert forall|i: int| #![trigger r[i]] 0 <= i < r.len() && r[i] == '{' implies exists|t: Seq<char>|
            #[trigger] rest.contains(t) && occurs_at(r, t, i) by {
            let t = choose|t: Seq<char>| #[trigger] toks.contains(t) && occurs_at(s, t, i);
            assert(rest.contains(t));
        }
    } else if s.subrange(0, pat.len() as int) == pat {
        let y = s.subrange(pat.len() as int, s.len() as int);
        lemma_braces_suffix(s, pat.len() as int, toks);
        lemma_replace_consumes_token(y, pat, rep, toks);
        let ry = replace_spec(y, pat, rep);
        assert forall|i: int| #![trigger r[i]] 0 <= i < r.len() && r[i] == '{' implies exists|t: Seq<char>|
            #[trigger] rest.contains(t) && occurs_at(r, t, i) by {
            if i < rep.len() {
                assert(r[i] == rep[i]);
            } else {
                let j = i - rep.len();
                assert(ry[j] == r[i]);
                let t = choose|t: Seq<char>| #[trigger] rest.contains(t) && occurs_at(ry, t, j);
                lemma_occurs_shift(rep, ry, t, j);
            }
        }
    } else {
        let y = s.drop_first();
        assert(y =~= s.subrange(1, s.len() as int));
        lemma_braces_suffix(s, 1, toks);
        lemma_replace_consumes_token(y, pat, rep, toks);
        let ry = replace_spec(y, pat, rep);
        assert forall|i: int| #![trigger r[i]] 0 <= i < r.len() && r[i] == '{' implies exists|t: Seq<char>|
            #[trigger] rest.contains(t) && occurs_at(r, t, i) by {
            if i == 0 {
                assert(s[0] == '{');
                let t = choose|t: Seq<char>| #[trigger] toks.contains(t) && occurs_at(s, t, 0);
                assert(token_shaped(t));
                if t == pat {
                    assert(s.subrange(0, pat.len() as int) == pat);
                }
                assert(rest.contains(t));
                let k = t.len() - 1;
                assert(brace_free(y.subrange(0, k))) by {
                    assert forall|q: int| 0 <= q < k implies #[trigger] y.subrange(0, k)[q] != '{' by {
                        assert(y.subrange(0, k)[q] == s.subrange(0, t.len() as int)[q + 1]);
                        assert(t.drop_first()[q] == t[q + 1]);
                    }
                }
                lemma_replace_keeps_brace_free_prefix(y, pat, rep, k);
                assert(r.subrange(0, t.len() as int) =~= t) by {
                    assert forall|q: int| 0 <= q < t.len() implies #[trigger] r.subrange(0, t.len() as int)[q] == t[q] by {
                        if q == 0 {
                            assert(s.subrange(0, t.len() as int)[0] == s[0]);
                        } else {
                            assert(r[q] == ry[q - 1]);
                            assert(ry.subrange(0, k)[q - 1] == y.subrange(0, k)[q - 1]);
                            assert(s.subrange(0, t.len() as int)[q] == t[q]);
                        }
                    }
                }
            } else {
                let j = i - 1;
                assert(ry[j] == r[i]);
                let t = choose|t: Seq<char>| #[trigger] rest.contains(t) && occurs_at(ry, t, j);
                lemma_occurs_shift(seq![s[0]], ry, t, j);
            }
        }
    }
}

proof fn lemma_template_tokens_shaped()
    ensures
        forall|t: Seq<char>| #[trigger] template_tokens().contains(t) ==> token_shaped(t),
{
    reveal_strlit("{camera_name}");
    reveal_strlit("{camera_id}");
    reveal_strlit("{date}");
    reveal_strlit("{time}");
    reveal_strlit("{end_time}");
    reveal_strlit("{detection_type}");
    reveal_strlit("{event_id}");
    assert(token_shaped("{camera_name}"@));
    assert(token_shaped("{camera_id}"@));
    assert(token_shaped("{date}"@));
    assert(token_shaped("{time}"@));
    assert(token_shaped("{end_time}"@));
    assert(token_shaped("{detection_type}"@));
    assert(token_shaped("{event_id}"@));
}

/// Expanding an expanded template again changes nothing, provided that
/// no value holds a `{` and that every `{` of the template opens one of
/// the seven tokens (so no token can be formed anew from the pieces).
pub proof fn lemma_render_twice(
    fmt: Seq<char>,
    camera_name: Seq<char>,
    camera_id: Seq<char>,
    date: Seq<char>,
    time: Seq<char>,
    end_time: Seq<char>,
    detection_type: Seq<char>,
    event_id: Seq<char>,
)
    requires
        braces_open_tokens(fmt, template_tokens()),
        brace_free(camera_name),
        brace_free(camera_id),
        brace_free(date),
        brace_free(time),
        brace_free(end_time),
        brace_free(detection_type),
        brace_free(event_id),
    ensures
        render_spec(
            render_spec(fmt, camera_name, camera_id, date, time, end_time, detection_type, event_id),
            camera_name,
            camera_id,
            date,
            time,
            end_time,
            detection_type,
            event_id,
        ) == render_spec(fmt, camera_name, camera_id, date, time, end_time, detection_type, event_id),
{
    lemma_template_tokens_shaped();
    let t0 = template_tokens();
    let t1 = t0.remove("{camera_name}"@);
    let t2 = t1.remove("{camera_id}"@);
    let t3 = t2.remove("{date}"@);
    let t4 = t3.remove("{time}"@);
    let t5 = t4.remove("{end_time}"@);
    let t6 = t5.remove("{detection_type}"@);
    let t7 = t6.remove("{event_id}"@);
    let s1 = replace_spec(fmt, "{camera_name}"@, camera_name);
    let s2 = replace_spec(s1, "{camera_id}"@, camera_id);
    let s3 = replace_spec(s2, "{date}"@, date);
    let s4 = replace_spec(s3, "{time}"@, time);
    let s5 = replace_spec(s4, "{end_time}"@, end_time);
    let s6 = replace_spec(s5, "{detection_type}"@, detection_type);
    let s7 = replace_spec(s6, "{event_id}"@, event_id);
    assert(t0.contains("{camera_name}"@) && t0.contains("{camera_id}"@) && t0.contains("{date}"@)
        && t0.contains("{time}"@) && t0.contains("{end_time}"@) && t0.contains("{detection_type}"@)
        && t0.contains("{event_id}"@));
    lemma_replace_consumes_token(fmt, "{camera_name}"@, camera_name, t0);
    lemma_replace_consumes_token(s1, "{camera_id}"@, camera_id, t1);
    lemma_replace_consumes_token(s2, "{date}"@, date, t2);
    lemma_replace_consumes_token(s3, "{time}"@, time, t3);
    lemma_replace_consumes_token(s4, "{end_time}"@, end_time, t4);
    lemma_replace_consumes_token(s5, "{detection_type}"@, detection_type, t5);
    lemma_replace_consumes_token(s6, "{event_id}"@, event_id, t6);
    assert(t7 =~= Set::<Seq<char>>::empty());
    assert(brace_free(s7)) by {
        assert forall|i: int| 0 <= i < s7.len() implies s7[i] != '{' by {
            if s7[i] == '{' {
                let t = choose|t: Seq<char>| #[trigger] t7.contains(t) && occurs_at(s7, t, i);
            }
        }
    }
    lemma_replace_brace_free_identity(s7, "{camera_name}"@, camera_name);
    lemma_replace_brace_free_identity(s7, "{camera_id}"@, camera_id);
    lemma_replace_brace_free_identity(s7, "{date}"@, date);
    lemma_replace_brace_free_identity(s7, "{time}"@, time);
    lemma_replace_brace_free_identity(s7, "{end_time}"@, end_time);
    lemma_replace_brace_free_identity(s7, "{detection_type}"@, detection_type);
    lemma_replace_brace_free_identity(s7, "{event_id}"@, event_id);
}

} // verus!
