//! The event-to-log-record bridge: rendering a one-line snapshot of a
//! span when it opens, mapping levels to severities, and building one
//! exportable log record per structured event, carrying the event's
//! fields and a description of every enclosing span from root to leaf.

use vstd::prelude::*;
use vstd::string::StringExecFns;
use crate::text::spec_dec;
use crate::text::spec_dec_i64;
use crate::text::u64_dec;
use crate::text::i64_dec;
use crate::text::str_eq;

verus! {

/// The value of one structured field, as the host's visitor saw it.
/// A floating-point value is carried as its raw bits together with its
/// host rendering; a value of any unsupported type arrives already
/// rendered in its generic debug form.
#[derive(Debug, Clone, PartialEq, Eq)]
pub enum FieldValue {
    Text(String),
    Flag(bool),
    Integer(i64),
    Double { bits: u64, rendering: String },
    Rendered(String),
}

/// One named field of a span or event.
#[derive(Debug, Clone, PartialEq, Eq)]
pub struct EventField {
    pub name: String,
    pub value: FieldValue,
}

/// The mathematical image of a `FieldValue`.
pub enum FieldValueView {
    Text(Seq<char>),
    Flag(bool),
    Integer(int),
    Double { bits: u64, rendering: Seq<char> },
    Rendered(Seq<char>),
}

/// The mathematical image of an `EventField`.
pub struct EventFieldView {
    pub name: Seq<char>,
    pub value: FieldValueView,
}

impl DeepView for FieldValue {
    type V = FieldValueView;

    open spec fn deep_view(&self) -> FieldValueView {
        match self {
            FieldValue::Text(s) => FieldValueView::Text(s@),
            FieldValue::Flag(b) => FieldValueView::Flag(*b),
            FieldValue::Integer(i) => FieldValueView::Integer(*i as int),
            FieldValue::Double { bits, rendering } => FieldValueView::Double {
                bits: *bits,
                rendering: rendering@,
            },
            FieldValue::Rendered(s) => FieldValueView::Rendered(s@),
        }
    }
}

impl DeepView for EventField {
    type V = EventFieldView;

    open spec fn deep_view(&self) -> EventFieldView {
        EventFieldView { name: self.name@, value: self.value.deep_view() }
    }
}

/// The value of one log-record attribute: a string, a boolean, an
/// integer, or a double carried as its raw bits.
#[derive(Debug, Clone, PartialEq, Eq)]
pub enum AttrValue {
    Text(String),
    Flag(bool),
    Integer(i64),
    Double(u64),
}

/// One key/value attribute of a log record.
#[derive(Debug, Clone, PartialEq, Eq)]
pub struct LogAttr {
    pub key: String,
    pub value: AttrValue,
}

/// The mathematical image of an `AttrValue`.
pub enum AttrValueView {
    Text(Seq<char>),
    Flag(bool),
    Integer(int),
    Double(u64),
}

/// The mathematical image of a `LogAttr`.
pub struct LogAttrView {
    pub key: Seq<char>,
    pub value: AttrValueView,
}

impl DeepView for AttrValue {
    type V = AttrValueView;

    open spec fn deep_view(&self) -> AttrValueView {
        match self {
            AttrValue::Text(s) => AttrValueView::Text(s@),
            AttrValue::Flag(b) => AttrValueView::Flag(*b),
            AttrValue::Integer(i) => AttrValueView::Integer(*i as int),
            AttrValue::Double(b) => AttrValueView::Double(*b),
        }
    }
}

impl DeepView for LogAttr {
    type V = LogAttrView;

    open spec fn deep_view(&self) -> LogAttrView {
        LogAttrView { key: self.key@, value: self.value.deep_view() }
    }
}

/// The snapshot attached to a span when it opens: a one-line textual
/// description and the source location, both immutable thereafter and
/// read by every log event nested inside the span.
#[derive(Debug, Clone, PartialEq, Eq)]
pub struct ExtensionValues {
    pub span_str: String,
    pub location: String,
}

/// The mathematical image of an `ExtensionValues`.
pub struct ExtensionValuesView {
    pub span_str: Seq<char>,
    pub location: Seq<char>,
}

impl DeepView for ExtensionValues {
    type V = ExtensionValuesView;

    open spec fn deep_view(&self) -> ExtensionValuesView {
        ExtensionValuesView { span_str: self.span_str@, location: self.location@ }
    }
}

/// One enclosing span as seen at the moment an event fires: its live
/// name and, where the span was opened under this bridge, its stored
/// snapshot.
#[derive(Debug, Clone, PartialEq, Eq)]
pub struct SpanChainEntry {
    pub name: String,
    pub extension: Option<ExtensionValues>,
}

/// The mathematical image of a `SpanChainEntry`.
pub struct SpanChainEntryView {
    pub name: Seq<char>,
    pub extension: Option<ExtensionValuesView>,
}

impl DeepView for SpanChainEntry {
    type V = SpanChainEntryView;

    open spec fn deep_view(&self) -> SpanChainEntryView {
        SpanChainEntryView { name: self.name@, extension: self.extension.deep_view() }
    }
}

/// A log level, in ascending order of urgency.
#[derive(PartialEq, Eq, Structural, Clone, Copy, Debug)]
pub enum LogLevel {
    Trace,
    Debug,
    Info,
    Warn,
    Error,
}

/// A log-record severity, in ascending order.
#[derive(PartialEq, Eq, Structural, Clone, Copy, Debug)]
pub enum Severity {
    Trace,
    Debug,
    Info,
    Warn,
    Error,
}

/// The fixed level-to-severity table.
pub open spec fn spec_severity_of_level(level: LogLevel) -> Severity {
    match level {
        LogLevel::Trace => Severity::Trace,
        LogLevel::Debug => Severity::Debug,
        LogLevel::Info => Severity::Info,
        LogLevel::Warn => Severity::Warn,
        LogLevel::Error => Severity::Error,
    }
}

/// Maps a level to its severity.
pub fn severity_of_level(level: &LogLevel) -> (r: Severity)
    ensures
        r == spec_severity_of_level(*level),
{
    match level {
        LogLevel::Trace => Severity::Trace,
        LogLevel::Debug => Severity::Debug,
        LogLevel::Info => Severity::Info,
        LogLevel::Warn => Severity::Warn,
        LogLevel::Error => Severity::Error,
    }
}

/// The position of a level in the level ordering.
pub open spec fn spec_level_rank(level: LogLevel) -> nat {
    match level {
        LogLevel::Trace => 0,
        LogLevel::Debug => 1,
        LogLevel::Info => 2,
        LogLevel::Warn => 3,
        LogLevel::Error => 4,
    }
}

/// The standard numeric value of a severity.
pub open spec fn spec_severity_number(s: Severity) -> nat {
    match s {
        Severity::Trace => 1,
        Severity::Debug => 5,
        Severity::Info => 9,
        Severity::Warn => 13,
        Severity::Error => 17,
    }
}

/// The numeric value of a severity.
pub fn severity_number(s: &Severity) -> (r: u8)
    ensures
        r as nat == spec_severity_number(*s),
{
    match s {
        Severity::Trace => 1,
        Severity::Debug => 5,
        Severity::Info => 9,
        Severity::Warn => 13,
        Severity::Error => 17,
    }
}

/// The level-to-severity table is monotonic: a more urgent level never
/// maps to a lower severity.
pub proof fn lemma_severity_of_level_monotone(l1: LogLevel, l2: LogLevel)
    requires
        spec_level_rank(l1) <= spec_level_rank(l2),
    ensures
        spec_severity_number(spec_severity_of_level(l1)) <= spec_severity_number(
            spec_severity_of_level(l2),
        ),
{
}

/// The textual form of a level.
pub open spec fn spec_level_text(level: LogLevel) -> Seq<char> {
    match level {
        LogLevel::Trace => "TRACE"@,
        LogLevel::Debug => "DEBUG"@,
        LogLevel::Info => "INFO"@,
        LogLevel::Warn => "WARN"@,
        LogLevel::Error => "ERROR"@,
    }
}

/// Returns the textual form of a level.
pub fn level_str(level: &LogLevel) -> (r: &'static str)
    ensures
        r@ == spec_level_text(*level),
{
    match level {
        LogLevel::Trace => "TRACE",
        LogLevel::Debug => "DEBUG",
        LogLevel::Info => "INFO",
        LogLevel::Warn => "WARN",
        LogLevel::Error => "ERROR",
    }
}

/// The metadata of a span at creation, as the bridge reads it.
pub struct SpanMeta {
    pub name: String,
    pub module: Option<String>,
    pub file: Option<String>,
    pub line: Option<u32>,
}

/// The metadata of a log event.
pub struct EventMeta {
    pub target: String,
    pub name: String,
    pub level: LogLevel,
    pub file: Option<String>,
    pub line: Option<u32>,
}

/// A rendered source location: `file:line`, with `UNKNOWN` for a
/// missing file and `0` for a missing line.
pub open spec fn spec_location(file: Option<String>, line: Option<u32>) -> Seq<char> {
    (match file {
        Some(f) => f@,
        None => "UNKNOWN"@,
    }) + ":"@ + spec_dec(
        (match line {
            Some(n) => n,
            None => 0,
        }) as nat,
    )
}

/// Renders a source location.
pub fn render_location(file: &Option<String>, line: &Option<u32>) -> (r: String)
    ensures
        r@ == spec_location(*file, *line),
{
    let mut s = match file {
        Some(f) => f.clone(),
        None => String::from_str("UNKNOWN"),
    };
    s.append(":");
    let n: u32 = match line {
        Some(n) => *n,
        None => 0,
    };
    s.append(u64_dec(n as u64).as_str());
    s
}

/// The rendering of one field value inside a span snapshot: strings
/// verbatim, booleans and integers in their natural textual form,
/// doubles and other values in the rendering the host supplied.
pub open spec fn spec_field_text(v: FieldValueView) -> Seq<char> {
    match v {
        FieldValueView::Text(s) => s,
        FieldValueView::Flag(b) => if b {
            "true"@
        } else {
            "false"@
        },
        FieldValueView::Integer(i) => spec_dec_i64(i),
        FieldValueView::Double { bits: _, rendering } => rendering,
        FieldValueView::Rendered(s) => s,
    }
}

/// Renders one field value as text.
pub fn field_value_text(v: &FieldValue) -> (r: String)
    ensures
        r@ == spec_field_text(v.deep_view()),
{
    match v {
        FieldValue::Text(s) => s.clone(),
        FieldValue::Flag(b) => {
            if *b {
                String::from_str("true")
            } else {
                String::from_str("false")
            }
        },
        FieldValue::Integer(i) => i64_dec(*i),
        FieldValue::Double { bits: _, rendering } => rendering.clone(),
        FieldValue::Rendered(s) => s.clone(),
    }
}

/// The rendered field list of a span snapshot: `, name: 'value'` for
/// each field, in order.
pub open spec fn spec_span_fields_text(fs: Seq<EventFieldView>) -> Seq<char>
    decreases fs.len(),
{
    if fs.len() == 0 {
        Seq::empty()
    } else {
        spec_span_fields_text(fs.drop_last()) + ", "@ + fs.last().name + ": '"@ + spec_field_text(
            fs.last().value,
        ) + "'"@
    }
}

/// The one-line snapshot of a span: its name, module, location and
/// every attached field.
pub open spec fn spec_span_str(meta: SpanMeta, fs: Seq<EventFieldView>) -> Seq<char> {
    "Name: '"@ + meta.name@ + "', { module: '"@ + (match meta.module {
        Some(m) => m@,
        None => Seq::empty(),
    }) + "', location: '"@ + spec_location(meta.file, meta.line) + "'"@ + spec_span_fields_text(fs)
        + " }"@
}

/// Renders the snapshot stored for a span when it opens: done exactly
/// once, synchronously, before the span is handed back to its creator;
/// the snapshot is immutable for the span's whole life.
pub fn render_span_extension(meta: &SpanMeta, fields: &Vec<EventField>) -> (r: ExtensionValues)
    ensures
        r.location@ == spec_location(meta.file, meta.line),
        r.span_str@ == spec_span_str(*meta, fields.deep_view()),
{
    let location = render_location(&meta.file, &meta.line);
    let mut s = String::from_str("Name: '");
    s.append(meta.name.as_str());
    s.append("', { module: '");
    match &meta.module {
        Some(m) => {
            s.append(m.as_str());
        },
        None => {},
    }
    s.append("', location: '");
    s.append(location.as_str());
    s.append("'");
    let mut i: usize = 0;
    while i < fields.len()
        invariant
            i <= fields@.len(),
            s@ == "Name: '"@ + meta.name@ + "', { module: '"@ + (match meta.module {
                Some(m) => m@,
                None => Seq::<char>::empty(),
            }) + "', location: '"@ + spec_location(meta.file, meta.line) + "'"@
                + spec_span_fields_text(fields.deep_view().take(i as int)),
        decreases fields@.len() - i,
    {
        proof {
            assert(fields.deep_view().take(i + 1).drop_last() =~= fields.deep_view().take(
                i as int,
            ));
            assert(fields.deep_view().take(i + 1).last() == fields@[i as int].deep_view());
        }
        s.append(", ");
        s.append(fields[i].name.as_str());
        s.append(": '");
        s.append(field_value_text(&fields[i].value).as_str());
        s.append("'");
        i = i + 1;
    }
    proof {
        assert(fields.deep_view().take(fields@.len() as int) =~= fields.deep_view());
    }
    s.append(" }");
    ExtensionValues { span_str: s, location }
}

/// One complete log record, ready for export.
pub struct LogRecordData {
    pub target: String,
    pub event_name: String,
    pub severity: Severity,
    pub severity_text: String,
    pub body: Option<AttrValue>,
    pub attributes: Vec<LogAttr>,
}

/// Whether a field is the event's message in its debug-rendered form:
/// the one field that becomes the record body instead of an attribute.
pub open spec fn spec_is_message_field(f: EventFieldView) -> bool {
    f.name == "message"@ && f.value is Rendered
}

/// The attribute value a field turns into: its native type where the
/// visitor supports it, its debug rendering otherwise.
pub open spec fn spec_attr_of_value(v: FieldValueView) -> AttrValueView {
    match v {
        FieldValueView::Text(s) => AttrValueView::Text(s),
        FieldValueView::Flag(b) => AttrValueView::Flag(b),
        FieldValueView::Integer(i) => AttrValueView::Integer(i),
        FieldValueView::Double { bits, rendering: _ } => AttrValueView::Double(bits),
        FieldValueView::Rendered(s) => AttrValueView::Text(s),
    }
}

/// The attributes contributed by the event's fields, in order: every
/// field except the debug-rendered message, which becomes the body.
pub open spec fn spec_field_attrs(fs: Seq<EventFieldView>) -> Seq<LogAttrView>
    decreases fs.len(),
{
    if fs.len() == 0 {
        Seq::empty()
    } else if spec_is_message_field(fs.last()) {
        spec_field_attrs(fs.drop_last())
    } else {
        spec_field_attrs(fs.drop_last()).push(
            LogAttrView { key: fs.last().name, value: spec_attr_of_value(fs.last().value) },
        )
    }
}

/// The value of the last field literally named `body`, if any.
pub open spec fn spec_last_body_field(fs: Seq<EventFieldView>) -> Option<AttrValueView>
    decreases fs.len(),
{
    if fs.len() == 0 {
        None
    } else if fs.last().name == "body"@ {
        Some(spec_attr_of_value(fs.last().value))
    } else {
        spec_last_body_field(fs.drop_last())
    }
}

/// The debug-rendered text of the last message field, if any.
pub open spec fn spec_last_message(fs: Seq<EventFieldView>) -> Option<AttrValueView>
    decreases fs.len(),
{
    if fs.len() == 0 {
        None
    } else if spec_is_message_field(fs.last()) {
        Some(spec_attr_of_value(fs.last().value))
    } else {
        spec_last_message(fs.drop_last())
    }
}

/// The record body: the event's message, with a field literally named
/// `body` taking precedence where one is present.
pub open spec fn spec_body(fs: Seq<EventFieldView>) -> Option<AttrValueView> {
    match spec_last_body_field(fs) {
        Some(v) => Some(v),
        None => spec_last_message(fs),
    }
}

/// The attribute triple contributed by the enclosing span at depth `i`
/// (0 = outermost): its stored snapshot and location where the span
/// carries one, and its live name always.
pub open spec fn spec_entry_attrs(e: SpanChainEntryView, i: nat) -> Seq<LogAttrView> {
    (match e.extension {
        Some(ext) => seq![
            LogAttrView { key: "span."@ + spec_dec(i), value: AttrValueView::Text(ext.span_str) },
            LogAttrView {
                key: "span."@ + spec_dec(i) + ".location"@,
                value: AttrValueView::Text(ext.location),
            },
        ],
        None => Seq::empty(),
    }) + seq![
        LogAttrView {
            key: "span."@ + spec_dec(i) + ".name"@,
            value: AttrValueView::Text(e.name),
        },
    ]
}

/// The attributes contributed by the first `n` spans of the active
/// chain, root first.
pub open spec fn spec_chain_upto(scope: Seq<SpanChainEntryView>, n: nat) -> Seq<LogAttrView>
    decreases n,
{
    if n == 0 {
        Seq::empty()
    } else {
        spec_chain_upto(scope, (n - 1) as nat) + spec_entry_attrs(
            scope[n - 1],
            (n - 1) as nat,
        )
    }
}

/// The span-chain attributes of a record: one triple per enclosing
/// span, ordered root to leaf; none when no span is active.
pub open spec fn spec_chain_attrs(scope: Seq<SpanChainEntryView>) -> Seq<LogAttrView> {
    spec_chain_upto(scope, scope.len())
}

/// Every attribute of the finished record, in order: the event's
/// source location, then the field attributes, then the span chain.
pub open spec fn spec_record_attrs(
    meta: EventMeta,
    fs: Seq<EventFieldView>,
    scope: Seq<SpanChainEntryView>,
) -> Seq<LogAttrView> {
    seq![
        LogAttrView {
            key: "location"@,
            value: AttrValueView::Text(spec_location(meta.file, meta.line)),
        },
    ] + spec_field_attrs(fs) + spec_chain_attrs(scope)
}

fn attr_of_value(v: &FieldValue) -> (r: AttrValue)
    ensures
        r.deep_view() == spec_attr_of_value(v.deep_view()),
{
    match v {
        FieldValue::Text(s) => AttrValue::Text(s.clone()),
        FieldValue::Flag(b) => AttrValue::Flag(*b),
        FieldValue::Integer(i) => AttrValue::Integer(*i),
        FieldValue::Double { bits, rendering: _ } => AttrValue::Double(*bits),
        FieldValue::Rendered(s) => AttrValue::Text(s.clone()),
    }
}

/// Builds the log record for one event: target, event name, severity
/// mapped by the fixed table, source location, the event's fields
/// (message becoming the body, a field named `body` overriding it),
/// and one attribute triple per enclosing span, root to leaf.
pub fn build_log_record(
    meta: &EventMeta,
    fields: &Vec<EventField>,
    scope: &Vec<SpanChainEntry>,
) -> (r: LogRecordData)
    ensures
        r.target@ == meta.target@,
        r.event_name@ == meta.name@,
        r.severity == spec_severity_of_level(meta.level),
        r.severity_text@ == spec_level_text(meta.level),
        r.body.deep_view() == spec_body(fields.deep_view()),
        r.attributes.deep_view() == spec_record_attrs(*meta, fields.deep_view(), scope.deep_view()),
{
    let mut attributes: Vec<LogAttr> = Vec::new();
    attributes.push(
        LogAttr {
            key: String::from_str("location"),
            value: AttrValue::Text(render_location(&meta.file, &meta.line)),
        },
    );
    proof {
        assert(attributes.deep_view() =~= seq![
            LogAttrView {
                key: "location"@,
                value: AttrValueView::Text(spec_location(meta.file, meta.line)),
            },
        ] + spec_field_attrs(fields.deep_view().take(0)) + Seq::<LogAttrView>::empty());
    }
    let mut body: Option<AttrValue> = None;
    let mut message: Option<AttrValue> = None;
    let mut i: usize = 0;
    while i < fields.len()
        invariant
            i <= fields@.len(),
            attributes.deep_view() =~= seq![
                LogAttrView {
                    key: "location"@,
                    value: AttrValueView::Text(spec_location(meta.file, meta.line)),
                },
            ] + spec_field_attrs(fields.deep_view().take(i as int)),
            body.deep_view() == spec_last_body_field(fields.deep_view().take(i as int)),
            message.deep_view() == spec_last_message(fields.deep_view().take(i as int)),
        decreases fields@.len() - i,
    {
        proof {
            assert(fields.deep_view().take(i + 1).drop_last() =~= fields.deep_view().take(
                i as int,
            ));
            assert(fields.deep_view().take(i + 1).last() == fields@[i as int].deep_view());
        }
        let ghost pre = attributes.deep_view();
        let ghost fv = fields.deep_view();
        let f = &fields[i];
        let is_message = match &f.value {
            FieldValue::Rendered(_) => str_eq(f.name.as_str(), "message"),
            _ => false,
        };
        if is_message {
            message = Some(attr_of_value(&f.value));
            proof {
                assert(spec_field_attrs(fv.take(i + 1)) == spec_field_attrs(fv.take(i as int)));
            }
        } else {
            let attr = LogAttr { key: f.name.clone(), value: attr_of_value(&f.value) };
            proof {
                assert(attr.deep_view() == LogAttrView {
                    key: fv.take(i + 1).last().name,
                    value: spec_attr_of_value(fv.take(i + 1).last().value),
                });
            }
            attributes.push(attr);
            proof {
                assert(attributes.deep_view() =~= pre.push(
                    LogAttrView {
                        key: fv.take(i + 1).last().name,
                        value: spec_attr_of_value(fv.take(i + 1).last().value),
                    },
                ));
                assert(spec_field_attrs(fv.take(i + 1)) == spec_field_attrs(
                    fv.take(i as int),
                ).push(
                    LogAttrView {
                        key: fv.take(i + 1).last().name,
                        value: spec_attr_of_value(fv.take(i + 1).last().value),
                    },
                ));
            }
        }
        if str_eq(f.name.as_str(), "body") {
            body = Some(attr_of_value(&f.value));
        }
        proof {
            assert(attributes.deep_view() =~= seq![
                LogAttrView {
                    key: "location"@,
                    value: AttrValueView::Text(spec_location(meta.file, meta.line)),
                },
            ] + spec_field_attrs(fv.take(i + 1)));
        }
        i = i + 1;
    }
    proof {
        assert(fields.deep_view().take(fields@.len() as int) =~= fields.deep_view());
    }
    let body_final: Option<AttrValue> = match body {
        Some(v) => Some(v),
        None => message,
    };
    let mut j: usize = 0;
    while j < scope.len()
        invariant
            j <= scope@.len(),
            body_final.deep_view() == spec_body(fields.deep_view()),
            attributes.deep_view() =~= seq![
                LogAttrView {
                    key: "location"@,
                    value: AttrValueView::Text(spec_location(meta.file, meta.line)),
                },
            ] + spec_field_attrs(fields.deep_view()) + spec_chain_upto(
                scope.deep_view(),
                j as nat,
            ),
        decreases scope@.len() - j,
    {
        let ghost pre = attributes.deep_view();
        let ghost ev = scope.deep_view()[j as int];
        proof {
            assert(ev == scope@[j as int].deep_view());
        }
        let e = &scope[j];
        let mut base = String::from_str("span.");
        base.append(u64_dec(j as u64).as_str());
        proof {
            assert(base@ == "span."@ + spec_dec(j as nat));
        }
        match &e.extension {
            Some(ext) => {
                let mut loc_key = base.clone();
                loc_key.append(".location");
                attributes.push(
                    LogAttr { key: base.clone(), value: AttrValue::Text(ext.span_str.clone()) },
                );
                attributes.push(
                    LogAttr { key: loc_key, value: AttrValue::Text(ext.location.clone()) },
                );
            },
            None => {},
        }
        let mut name_key = base;
        name_key.append(".name");
        attributes.push(LogAttr { key: name_key, value: AttrValue::Text(e.name.clone()) });
        proof {
            match ev.extension {
                Some(ext) => {
                    assert(spec_entry_attrs(ev, j as nat) =~= seq![
                        LogAttrView {
                            key: "span."@ + spec_dec(j as nat),
                            value: AttrValueView::Text(ext.span_str),
                        },
                        LogAttrView {
                            key: "span."@ + spec_dec(j as nat) + ".location"@,
                            value: AttrValueView::Text(ext.location),
                        },
                        LogAttrView {
                            key: "span."@ + spec_dec(j as nat) + ".name"@,
                            value: AttrValueView::Text(ev.name),
                        },
                    ]);
                    assert(attributes.deep_view() =~= pre + spec_entry_attrs(ev, j as nat));
                },
                None => {
                    assert(spec_entry_attrs(ev, j as nat) =~= seq![
                        LogAttrView {
                            key: "span."@ + spec_dec(j as nat) + ".name"@,
                            value: AttrValueView::Text(ev.name),
                        },
                    ]);
                    assert(attributes.deep_view() =~= pre + spec_entry_attrs(ev, j as nat));
                },
            }
            assert(spec_chain_upto(scope.deep_view(), (j + 1) as nat) == spec_chain_upto(
                scope.deep_view(),
                j as nat,
            ) + spec_entry_attrs(ev, j as nat));
            assert(attributes.deep_view() =~= seq![
                LogAttrView {
                    key: "location"@,
                    value: AttrValueView::Text(spec_location(meta.file, meta.line)),
                },
            ] + spec_field_attrs(fields.deep_view()) + spec_chain_upto(
                scope.deep_view(),
                (j + 1) as nat,
            ));
        }
        j = j + 1;
    }
    let severity = severity_of_level(&meta.level);
    LogRecordData {
        target: meta.target.clone(),
        event_name: meta.name.clone(),
        severity,
        severity_text: String::from_str(level_str(&meta.level)),
        body: body_final,
        attributes,
    }
}

} // verus!
