//! The transfer timeline: one line of tab-separated columns for every event,
//! in an envelope that other languages build alike.
use vstd::prelude::*;
use vstd::string::*;

use crate::text::{char_list, decimal, decimal_text, same_text, text_option};

verus! {

broadcast use vstd::seq_lib::group_seq_properties;

/// The target under which timeline events are logged.
pub open spec fn timeline_target_text() -> Seq<char> {
    "envoix::timeline"@
}

/// The target under which timeline events are logged.
pub fn timeline_target() -> (r: &'static str)
    ensures
        r@ == timeline_target_text(),
{
    "envoix::timeline"
}

/// Whether an event belongs to the timeline. Events of every other target are
/// dropped.
pub fn is_timeline_event(target: &str) -> (r: bool)
    ensures
        r == (target@ == timeline_target_text()),
{
    same_text(target, timeline_target())
}

/// The session of an event: that of the innermost span that has one.
pub open spec fn innermost_session(spans: Seq<Option<u64>>) -> Option<u64>
    decreases spans.len(),
{
    if spans.len() == 0 {
        None
    } else if spans[0] is Some {
        spans[0]
    } else {
        innermost_session(spans.drop_first())
    }
}

/// The session of an event. `spans` are the sessions of its spans, the
/// innermost first.
pub fn event_session(spans: &Vec<Option<u64>>) -> (r: Option<u64>)
    ensures
        r == innermost_session(spans@),
{
    let mut i: usize = 0;
    assert(spans@.skip(0) =~= spans@);
    while i < spans.len()
        invariant
            i <= spans@.len(),
            innermost_session(spans@) == innermost_session(spans@.skip(i as int)),
        decreases spans@.len() - i,
    {
        let ghost rest = spans@.skip(i as int);
        assert(rest[0] == spans@[i as int]);
        assert(rest.drop_first() =~= spans@.skip(i + 1));
        if spans[i].is_some() {
            return spans[i];
        }
        i += 1;
    }
    None
}

/// The text of one character in a column: only `%`, TAB and LF are encoded.
pub open spec fn escaped_char(c: char) -> Seq<char> {
    if c == '%' {
        seq!['%', '2', '5']
    } else if c == '\t' {
        seq!['%', '0', '9']
    } else if c == '\n' {
        seq!['%', '0', 'A']
    } else {
        seq![c]
    }
}

/// The text of a column.
pub open spec fn escaped(s: Seq<char>) -> Seq<char>
    decreases s.len(),
{
    if s.len() == 0 {
        Seq::empty()
    } else {
        escaped_char(s[0]) + escaped(s.drop_first())
    }
}

proof fn escaped_concat(a: Seq<char>, b: Seq<char>)
    ensures
        escaped(a + b) == escaped(a) + escaped(b),
    decreases a.len(),
{
    if a.len() == 0 {
        assert(a + b =~= b);
        assert(escaped(a) + escaped(b) =~= escaped(b));
    } else {
        escaped_concat(a.drop_first(), b);
        assert((a + b).drop_first() =~= a.drop_first() + b);
        assert(escaped_char(a[0]) + (escaped(a.drop_first()) + escaped(b)) =~= escaped_char(a[0])
            + escaped(a.drop_first()) + escaped(b));
    }
}

/// The text of a column. Spaces, `=` and everything else stay as they are.
pub fn tl_escape(s: &str) -> (r: String)
    ensures
        r@ == escaped(s@),
{
    let chars = char_list(s);
    let mut text = String::new();
    let mut i: usize = 0;
    assert(s@.take(0) =~= Seq::empty());
    while i < chars.len()
        invariant
            chars@ == s@,
            i <= chars@.len(),
            text@ == escaped(s@.take(i as int)),
        decreases chars@.len() - i,
    {
        let c = chars[i];
        let ghost before = text@;
        if c == '%' {
            text.push('%');
            text.push('2');
            text.push('5');
        } else if c == '\t' {
            text.push('%');
            text.push('0');
            text.push('9');
        } else if c == '\n' {
            text.push('%');
            text.push('0');
            text.push('A');
        } else {
            text.push(c);
        }
        proof {
            let head = s@.take(i as int);
            let one = seq![c];
            assert(s@.take(i + 1) =~= head + one);
            escaped_concat(head, one);
            assert(one.drop_first() =~= Seq::empty());
            assert(escaped(one.drop_first()) =~= Seq::empty());
            assert(escaped(one) =~= escaped_char(c));
            assert(text@ =~= before + escaped_char(c));
        }
        i += 1;
    }
    assert(s@.take(i as int) =~= s@);
    text
}

/// The text of a column holds neither TAB nor LF.
pub proof fn columns_hold_no_delimiters(s: Seq<char>)
    ensures
        forall|i: int|
            0 <= i < escaped(s).len() ==> #[trigger] escaped(s)[i] != '\t' && escaped(s)[i] != '\n',
    decreases s.len(),
{
    if s.len() > 0 {
        let head = escaped_char(s[0]);
        let rest = escaped(s.drop_first());
        columns_hold_no_delimiters(s.drop_first());
        assert forall|i: int| 0 <= i < escaped(s).len() implies #[trigger] escaped(s)[i] != '\t'
            && escaped(s)[i] != '\n' by {
            if i < head.len() {
                assert(escaped(s)[i] == head[i]);
            } else {
                assert(escaped(s)[i] == rest[i - head.len()]);
            }
        }
    }
}

/// No two values have the same text: a column can be decoded.
pub proof fn escaping_is_unambiguous(a: Seq<char>, b: Seq<char>)
    requires
        escaped(a) == escaped(b),
    ensures
        a == b,
    decreases a.len(),
{
    if a.len() == 0 {
        if b.len() > 0 {
            assert(escaped(b).len() > 0);
        }
        assert(a =~= b);
    } else {
        assert(escaped(a).len() > 0);
        assert(b.len() > 0);
        let ea = escaped_char(a[0]);
        let eb = escaped_char(b[0]);
        let ra = escaped(a.drop_first());
        let rb = escaped(b.drop_first());
        assert(escaped(a)[0] == ea[0]);
        assert(escaped(b)[0] == eb[0]);
        if ea[0] == '%' {
            assert(ea.len() == 3 && eb.len() == 3);
            assert(escaped(a)[1] == ea[1] && escaped(b)[1] == eb[1]);
            assert(escaped(a)[2] == ea[2] && escaped(b)[2] == eb[2]);
        }
        assert(a[0] == b[0]);
        assert(ra =~= escaped(a).skip(ea.len() as int));
        assert(rb =~= escaped(b).skip(eb.len() as int));
        escaping_is_unambiguous(a.drop_first(), b.drop_first());
        assert(a =~= seq![a[0]] + a.drop_first());
        assert(b =~= seq![b[0]] + b.drop_first());
    }
}

/// The fields of a timeline event.
#[verifier::ext_equal]
pub struct TimelineView {
    pub attempt: Option<Seq<char>>,
    pub side: Option<Seq<char>>,
    pub layer: Option<Seq<char>>,
    pub event: Option<Seq<char>>,
    pub outcome: Option<Seq<char>>,
    /// Other fields, in the order in which they came.
    pub tail: Seq<(Seq<char>, Seq<char>)>,
}

impl TimelineView {
    /// The fields after one more: a field with a column of its own replaces
    /// what stood there, any other joins the tail.
    pub open spec fn with(self, name: Seq<char>, value: Seq<char>) -> TimelineView {
        if name == "attempt"@ {
            TimelineView { attempt: Some(value), ..self }
        } else if name == "side"@ {
            TimelineView { side: Some(value), ..self }
        } else if name == "layer"@ {
            TimelineView { layer: Some(value), ..self }
        } else if name == "event"@ {
            TimelineView { event: Some(value), ..self }
        } else if name == "outcome"@ {
            TimelineView { outcome: Some(value), ..self }
        } else {
            TimelineView { tail: self.tail.push((name, value)), ..self }
        }
    }
}

/// Collects the fields of a timeline event.
pub struct TimelineVisitor {
    attempt: Option<String>,
    side: Option<String>,
    layer: Option<String>,
    event: Option<String>,
    outcome: Option<String>,
    tail: Vec<(String, String)>,
}

/// What a tail holds.
pub open spec fn tail_view(tail: Seq<(String, String)>) -> Seq<(Seq<char>, Seq<char>)> {
    tail.map_values(|field: (String, String)| (field.0@, field.1@))
}

impl View for TimelineVisitor {
    type V = TimelineView;

    closed spec fn view(&self) -> TimelineView {
        TimelineView {
            attempt: text_option(self.attempt),
            side: text_option(self.side),
            layer: text_option(self.layer),
            event: text_option(self.event),
            outcome: text_option(self.outcome),
            tail: tail_view(self.tail@),
        }
    }
}

impl Default for TimelineVisitor {
    fn default() -> (r: Self)
        ensures
            r@ == (TimelineView {
                attempt: None,
                side: None,
                layer: None,
                event: None,
                outcome: None,
                tail: Seq::empty(),
            }),
    {
        let r = TimelineVisitor {
            attempt: None,
            side: None,
            layer: None,
            event: None,
            outcome: None,
            tail: Vec::new(),
        };
        assert(r@.tail =~= Seq::empty());
        r
    }
}

impl TimelineVisitor {
    /// Takes in one field.
    pub fn put(&mut self, name: &str, value: String)
        ensures
            final(self)@ == old(self)@.with(name@, value@),
    {
        let ghost before = self@;
        if same_text(name, "attempt") {
            self.attempt = Some(value);
        } else if same_text(name, "side") {
            self.side = Some(value);
        } else if same_text(name, "layer") {
            self.layer = Some(value);
        } else if same_text(name, "event") {
            self.event = Some(value);
        } else if same_text(name, "outcome") {
            self.outcome = Some(value);
        } else {
            let ghost shown = value@;
            self.tail.push((name.to_owned(), value));
            assert(self@.tail =~= before.tail.push((name@, shown)));
        }
    }
}

/// The text of an optional column: blank where it is absent.
pub open spec fn optional_column(value: Option<Seq<char>>) -> Seq<char> {
    match value {
        Some(text) => escaped(text),
        None => Seq::empty(),
    }
}

fn optional_column_text(value: &Option<String>) -> (r: String)
    ensures
        r@ == optional_column(text_option(*value)),
{
    match value {
        Some(text) => tl_escape(text.as_str()),
        None => String::new(),
    }
}

/// The text of a session column: blank where there is no session.
pub open spec fn session_column(session_id: Option<u64>) -> Seq<char> {
    match session_id {
        Some(id) => decimal(id as nat),
        None => Seq::empty(),
    }
}

/// The text of a field of the tail: the first `=` ends the name.
pub open spec fn tail_column(field: (Seq<char>, Seq<char>)) -> Seq<char> {
    escaped(field.0) + "="@ + escaped(field.1)
}

/// The columns of a line.
pub open spec fn line_columns(
    schema: u64,
    epoch_ms: u64,
    run_id: u64,
    session_id: Option<u64>,
    fields: TimelineView,
) -> Seq<Seq<char>> {
    seq![
        decimal(schema as nat),
        decimal(epoch_ms as nat),
        decimal(run_id as nat),
        session_column(session_id),
        optional_column(fields.attempt),
        optional_column(fields.side),
        optional_column(fields.layer),
        optional_column(fields.event),
        optional_column(fields.outcome),
    ] + fields.tail.map_values(|field: (Seq<char>, Seq<char>)| tail_column(field))
}

/// Columns with a TAB between each two.
pub open spec fn tab_joined(columns: Seq<Seq<char>>) -> Seq<char>
    decreases columns.len(),
{
    if columns.len() == 0 {
        Seq::empty()
    } else if columns.len() == 1 {
        columns[0]
    } else {
        tab_joined(columns.drop_last()) + seq!['\t'] + columns.last()
    }
}

fn push_column(line: String, column: &str) -> (r: String)
    ensures
        r@ == line@ + seq!['\t'] + column@,
{
    let mut next = line;
    next.push('\t');
    next.concat(column)
}

/// The line of a timeline event: schema, time, run, session, attempt, side,
/// layer, event and outcome in their places, then the other fields.
pub fn build_timeline_line(
    schema: u64,
    epoch_ms: u64,
    run_id: u64,
    session_id: Option<u64>,
    visitor: &TimelineVisitor,
) -> (r: String)
    ensures
        r@ == tab_joined(line_columns(schema, epoch_ms, run_id, session_id, visitor@)),
{
    let ghost all = line_columns(schema, epoch_ms, run_id, session_id, visitor@);
    let session = match session_id {
        Some(id) => decimal_text(id),
        None => String::new(),
    };
    let l1 = decimal_text(schema);
    let l2 = push_column(l1, decimal_text(epoch_ms).as_str());
    let l3 = push_column(l2, decimal_text(run_id).as_str());
    let l4 = push_column(l3, session.as_str());
    let l5 = push_column(l4, optional_column_text(&visitor.attempt).as_str());
    let l6 = push_column(l5, optional_column_text(&visitor.side).as_str());
    let l7 = push_column(l6, optional_column_text(&visitor.layer).as_str());
    let l8 = push_column(l7, optional_column_text(&visitor.event).as_str());
    let l9 = push_column(l8, optional_column_text(&visitor.outcome).as_str());
    proof {
        assert(all.take(1).len() == 1 && all.take(1)[0] == all[0]);
        joined_one_more(all, 1);
        joined_one_more(all, 2);
        joined_one_more(all, 3);
        joined_one_more(all, 4);
        joined_one_more(all, 5);
        joined_one_more(all, 6);
        joined_one_more(all, 7);
        joined_one_more(all, 8);
    }
    let mut line = l9;
    let mut i: usize = 0;
    while i < visitor.tail.len()
        invariant
            i <= visitor.tail@.len(),
            all == line_columns(schema, epoch_ms, run_id, session_id, visitor@),
            all.len() == 9 + visitor.tail@.len(),
            line@ == tab_joined(all.take(9 + i)),
        decreases visitor.tail@.len() - i,
    {
        let field = &visitor.tail[i];
        let column = tl_escape(field.0.as_str()).concat("=").concat(
            tl_escape(field.1.as_str()).as_str(),
        );
        proof {
            assert(visitor@.tail[i as int] == (field.0@, field.1@));
            assert(all[9 + i] == tail_column(visitor@.tail[i as int]));
            joined_one_more(all, 9 + i);
        }
        line = push_column(line, column.as_str());
        i += 1;
    }
    assert(all.take(9 + i) =~= all);
    line
}

proof fn joined_one_more(columns: Seq<Seq<char>>, n: int)
    requires
        1 <= n < columns.len(),
    ensures
        tab_joined(columns.take(n + 1)) == tab_joined(columns.take(n)) + seq!['\t'] + columns[n],
{
    assert(columns.take(n + 1).drop_last() =~= columns.take(n));
    assert(columns.take(n + 1).last() == columns[n]);
}

/// Whether a text holds a character.
pub open spec fn holds(s: Seq<char>, c: char) -> bool {
    exists|i: int| 0 <= i < s.len() && #[trigger] s[i] == c
}

proof fn joined_holds_no_break(columns: Seq<Seq<char>>)
    requires
        forall|k: int| 0 <= k < columns.len() ==> !holds(#[trigger] columns[k], '\n'),
    ensures
        !holds(tab_joined(columns), '\n'),
    decreases columns.len(),
{
    if columns.len() > 1 {
        let before = columns.drop_last();
        assert forall|k: int| 0 <= k < before.len() implies !holds(#[trigger] before[k], '\n') by {
            assert(before[k] == columns[k]);
        }
        joined_holds_no_break(before);
        let head = tab_joined(before);
        let last = columns.last();
        let all = tab_joined(columns);
        assert(!holds(columns[columns.len() - 1], '\n'));
        assert forall|i: int| 0 <= i < all.len() implies #[trigger] all[i] != '\n' by {
            if i < head.len() {
                assert(all[i] == head[i]);
            } else if i > head.len() {
                assert(all[i] == last[i - head.len() - 1]);
            }
        }
    } else if columns.len() == 1 {
        assert(!holds(columns[0], '\n'));
    }
}

proof fn digits_are_no_breaks(n: nat)
    ensures
        !holds(decimal(n), '\n'),
{
    crate::text::decimal_holds_digits(n);
}

/// A timeline event is one line, whatever its fields hold.
pub proof fn events_take_one_line(
    schema: u64,
    epoch_ms: u64,
    run_id: u64,
    session_id: Option<u64>,
    fields: TimelineView,
)
    ensures
        !holds(tab_joined(line_columns(schema, epoch_ms, run_id, session_id, fields)), '\n'),
{
    let columns = line_columns(schema, epoch_ms, run_id, session_id, fields);
    assert forall|k: int| 0 <= k < columns.len() implies !holds(#[trigger] columns[k], '\n') by {
        digits_are_no_breaks(schema as nat);
        digits_are_no_breaks(epoch_ms as nat);
        digits_are_no_breaks(run_id as nat);
        if session_id is Some {
            digits_are_no_breaks(session_id->0 as nat);
        }
        if fields.attempt is Some {
            columns_hold_no_delimiters(fields.attempt->0);
        }
        if fields.side is Some {
            columns_hold_no_delimiters(fields.side->0);
        }
        if fields.layer is Some {
            columns_hold_no_delimiters(fields.layer->0);
        }
        if fields.event is Some {
            columns_hold_no_delimiters(fields.event->0);
        }
        if fields.outcome is Some {
            columns_hold_no_delimiters(fields.outcome->0);
        }
        if k >= 9 {
            let field = fields.tail[k - 9];
            let name = escaped(field.0);
            let value = escaped(field.1);
            columns_hold_no_delimiters(field.0);
            columns_hold_no_delimiters(field.1);
            reveal_strlit("=");
            assert(columns[k] == tail_column(field));
            assert forall|i: int| 0 <= i < columns[k].len() implies #[trigger] columns[k][i] != '\n'
                by {
                if i < name.len() {
                    assert(columns[k][i] == name[i]);
                } else if i > name.len() {
                    assert(columns[k][i] == value[i - name.len() - 1]);
                }
            }
        }
    }
    joined_holds_no_break(columns);
}

/// The session of an event is the innermost one that is known.
pub proof fn events_belong_to_the_innermost_session(spans: Seq<Option<u64>>)
    ensures
        innermost_session(spans) is None <==> forall|i: int|
            0 <= i < spans.len() ==> (#[trigger] spans[i]) is None,
        innermost_session(spans) is Some ==> exists|i: int|
            0 <= i < spans.len() && spans[i] == innermost_session(spans) && forall|j: int|
                0 <= j < i ==> (#[trigger] spans[j]) is None,
    decreases spans.len(),
{
    if spans.len() > 0 && spans[0] is None {
        let rest = spans.drop_first();
        events_belong_to_the_innermost_session(rest);
        if innermost_session(rest) is Some {
            let i = choose|i: int|
                0 <= i < rest.len() && rest[i] == innermost_session(rest) && forall|j: int|
                    0 <= j < i ==> (#[trigger] rest[j]) is None;
            assert(spans[i + 1] == innermost_session(spans));
            assert forall|j: int| 0 <= j < i + 1 implies (#[trigger] spans[j]) is None by {
                if j > 0 {
                    assert(rest[j - 1] == spans[j]);
                }
            }
        } else {
            assert forall|i: int| 0 <= i < spans.len() implies (#[trigger] spans[i]) is None by {
                if i > 0 {
                    assert(rest[i - 1] == spans[i]);
                }
            }
        }
    }
}

/// A delimiter is written as the percent sign and its two hexadecimal digits;
/// everything else is written as it is.
pub proof fn delimiters_are_written_by_their_code(c: char, s: Seq<char>)
    ensures
        escaped_char('%') == seq!['%', '2', '5'],
        escaped_char('\t') == seq!['%', '0', '9'],
        escaped_char('\n') == seq!['%', '0', 'A'],
        c != '%' && c != '\t' && c != '\n' ==> escaped_char(c) == seq![c],
        escaped(seq![c] + s) == escaped_char(c) + escaped(s),
        escaped(Seq::empty()).len() == 0,
{
    assert((seq![c] + s).drop_first() =~= s);
}

/// A line of the timeline has its columns in one order: versions and times, the
/// session, the five known fields, then every other field in the order in which it
/// came.
pub proof fn lines_have_their_columns_in_order(
    schema: u64,
    epoch_ms: u64,
    run_id: u64,
    session_id: Option<u64>,
    fields: TimelineView,
    i: int,
)
    ensures
        ({
            let columns = line_columns(schema, epoch_ms, run_id, session_id, fields);
            &&& columns.len() == 9 + fields.tail.len()
            &&& columns[0] == decimal(schema as nat)
            &&& columns[1] == decimal(epoch_ms as nat)
            &&& columns[2] == decimal(run_id as nat)
            &&& session_id matches Some(id) ==> columns[3] == decimal(id as nat)
            &&& session_id is None ==> columns[3].len() == 0
            &&& fields.attempt matches Some(text) ==> columns[4] == escaped(text)
            &&& fields.side matches Some(text) ==> columns[5] == escaped(text)
            &&& fields.layer matches Some(text) ==> columns[6] == escaped(text)
            &&& fields.event matches Some(text) ==> columns[7] == escaped(text)
            &&& fields.outcome matches Some(text) ==> columns[8] == escaped(text)
            &&& fields.attempt is None ==> columns[4].len() == 0
            &&& fields.side is None ==> columns[5].len() == 0
            &&& fields.layer is None ==> columns[6].len() == 0
            &&& fields.event is None ==> columns[7].len() == 0
            &&& fields.outcome is None ==> columns[8].len() == 0
            &&& 0 <= i < fields.tail.len() ==> columns[9 + i] == escaped(fields.tail[i].0) + "="@
                + escaped(fields.tail[i].1)
        }),
{
}

/// A field is kept under its own name: the five known ones in their place, where
/// the latest counts, and every other one behind them.
pub proof fn fields_are_kept_under_their_name(
    fields: TimelineView,
    name: Seq<char>,
    value: Seq<char>,
)
    ensures
        fields.with("attempt"@, value).attempt == Some(value),
        fields.with("side"@, value).side == Some(value),
        fields.with("layer"@, value).layer == Some(value),
        fields.with("event"@, value).event == Some(value),
        fields.with("outcome"@, value).outcome == Some(value),
        name != "attempt"@ ==> fields.with(name, value).attempt == fields.attempt,
        name != "side"@ ==> fields.with(name, value).side == fields.side,
        name != "layer"@ ==> fields.with(name, value).layer == fields.layer,
        name != "event"@ ==> fields.with(name, value).event == fields.event,
        name != "outcome"@ ==> fields.with(name, value).outcome == fields.outcome,
        name != "attempt"@ && name != "side"@ && name != "layer"@ && name != "event"@ && name
            != "outcome"@ ==> fields.with(name, value).tail == fields.tail.push((name, value)),
        name == "attempt"@ || name == "side"@ || name == "layer"@ || name == "event"@ || name
            == "outcome"@ ==> fields.with(name, value).tail == fields.tail,
{
    reveal_strlit("attempt");
    reveal_strlit("side");
    reveal_strlit("layer");
    reveal_strlit("event");
    reveal_strlit("outcome");
    assert("attempt"@.len() == 7 && "side"@.len() == 4 && "layer"@.len() == 5);
    assert("event"@.len() == 5 && "outcome"@.len() == 7);
    assert("attempt"@[0] != "outcome"@[0]);
    assert("layer"@[0] != "event"@[0]);
}

/// Columns are put together with one tab between each two.
pub proof fn columns_are_joined_by_tabs(columns: Seq<Seq<char>>, next: Seq<char>)
    ensures
        tab_joined(seq![next]) == next,
        columns.len() > 0 ==> tab_joined(columns.push(next)) == tab_joined(columns) + seq!['\t']
            + next,
        tab_joined(Seq::empty()).len() == 0,
{
    assert(columns.push(next).drop_last() =~= columns);
}

} // verus!
