use crate::link_arg::{args_view, LinkArg, LinkArgView};
use crate::matcher::Platform;
use crate::text::{contains, contains_text, same_text, split_tokens, split_tokens_exec, strings_view, Separator};
use crate::select::LinkError;
use crate::unix::{classify_all, classify_tokens};
use quick_xml::events::Event;
use vstd::prelude::*;

verus! {

/// One event of an XML document read as a stream of tags.
pub enum XmlEvent {
    /// A start tag, with the undecoded text of its attributes.
    Start { name: String, attributes: String },
    End { name: String },
    Text { text: String },
}

pub enum XmlEventView {
    Start { name: Seq<char>, attributes: Seq<char> },
    End { name: Seq<char> },
    Text { text: Seq<char> },
}

impl View for XmlEvent {
    type V = XmlEventView;

    open spec fn view(&self) -> XmlEventView {
        match self {
            XmlEvent::Start { name, attributes } => XmlEventView::Start {
                name: name@,
                attributes: attributes@,
            },
            XmlEvent::End { name } => XmlEventView::End { name: name@ },
            XmlEvent::Text { text } => XmlEventView::Text { text: text@ },
        }
    }
}

pub open spec fn events_view(v: Seq<XmlEvent>) -> Seq<XmlEventView> {
    v.map_values(|e: XmlEvent| e@)
}

pub open spec fn opt_events_view(o: Option<Vec<XmlEvent>>) -> Option<Seq<XmlEventView>> {
    match o {
        Some(v) => Some(events_view(v@)),
        None => None,
    }
}

/// The start tags, end tags and non-blank trimmed texts of an XML document,
/// in document order, as quick-xml reads them; `None` for a malformed one.
pub uninterp spec fn xml_events(doc: Seq<char>) -> Option<Seq<XmlEventView>>;

/// Relies on `quick_xml::Reader::read_event`, read up to the end of the
/// document with text trimming on: start tags with their attributes, end
/// tags and unescaped texts; any reader error gives `None`. The attributes
/// of a start tag are kept as its raw attribute text.
#[verifier::external_body]
fn read_xml_events(doc: &str) -> (r: Option<Vec<XmlEvent>>)
    ensures
        opt_events_view(r) == xml_events(doc@),
{
    let mut reader = quick_xml::Reader::from_str(doc);
    reader.trim_text(true);
    let (mut buf, mut out) = (Vec::new(), Vec::new());
    let s = |b: &[u8]| String::from_utf8_lossy(b).into_owned();
    loop {
        out.push(match reader.read_event(&mut buf).ok()? {
            Event::Start(e) => XmlEvent::Start { name: s(e.name()), attributes: s(e.attributes_raw()) },
            Event::End(e) => XmlEvent::End { name: s(e.name()) },
            Event::Text(e) => XmlEvent::Text { text: e.unescape_and_decode(&reader).ok()? },
            Event::Eof => return Some(out),
            _ => continue,
        });
    }
}

/// Where a reader of a project file stands: inside a configuration block
/// that was asked for, inside its link settings, inside their list of
/// additional dependencies.
#[derive(Clone, Copy, PartialEq, Eq, Debug)]
pub struct ScanState {
    pub in_group: bool,
    pub in_link: bool,
    pub in_deps: bool,
}

pub open spec fn group_tag() -> Seq<char> {
    "ItemDefinitionGroup"@
}

pub open spec fn link_tag() -> Seq<char> {
    "Link"@
}

pub open spec fn deps_tag() -> Seq<char> {
    "AdditionalDependencies"@
}

pub open spec fn condition_key() -> Seq<char> {
    "Condition"@
}

/// The key and raw value of each attribute in the attribute text of a tag,
/// in order, as quick-xml reads them; `None` where one is malformed.
pub uninterp spec fn xml_attributes(raw: Seq<char>) -> Option<Seq<(Seq<char>, Seq<char>)>>;

pub open spec fn attrs_view(v: Seq<(String, String)>) -> Seq<(Seq<char>, Seq<char>)> {
    v.map_values(|a: (String, String)| (a.0@, a.1@))
}

pub open spec fn opt_attrs_view(o: Option<Vec<(String, String)>>) -> Option<Seq<(Seq<char>, Seq<char>)>> {
    match o {
        Some(v) => Some(attrs_view(v@)),
        None => None,
    }
}

/// Relies on `quick_xml::events::attributes::Attributes::new` (what
/// `BytesStart::attributes` iterates over): each attribute of the text with
/// its key and raw value; any attribute error gives `None`.
#[verifier::external_body]
fn read_attributes(raw: &str) -> (r: Option<Vec<(String, String)>>)
    ensures
        opt_attrs_view(r) == xml_attributes(raw@),
{
    let s = |b: &[u8]| String::from_utf8_lossy(b).into_owned();
    let attrs = quick_xml::events::attributes::Attributes::new(raw.as_bytes(), 0);
    attrs.map(|a| a.ok().map(|a| (s(a.key), s(&a.value)))).collect()
}

/// Whether some `Condition` attribute holds the configuration name.
pub open spec fn names_config(attrs: Seq<(Seq<char>, Seq<char>)>, config: Seq<char>) -> bool {
    exists|k: int| 0 <= k < attrs.len() && (#[trigger] attrs[k]).0 == condition_key() && contains(attrs[k].1, config)
}

/// Whether the attribute text of a tag has a `Condition` attribute that
/// holds the configuration name; attribute text that cannot be read names
/// no configuration.
pub open spec fn has_condition(raw: Seq<char>, config: Seq<char>) -> bool {
    match xml_attributes(raw) {
        Some(attrs) => names_config(attrs, config),
        None => false,
    }
}

/// The state after one event that is not the dependency list itself.
pub open spec fn scan_step(ev: XmlEventView, config: Seq<char>, st: ScanState) -> ScanState {
    match ev {
        XmlEventView::Start { name, attributes } => if name == group_tag() {
            ScanState { in_group: st.in_group || has_condition(attributes, config), ..st }
        } else if name == link_tag() && st.in_group {
            ScanState { in_link: true, ..st }
        } else if name == deps_tag() && st.in_group && st.in_link {
            ScanState { in_deps: true, ..st }
        } else {
            st
        },
        XmlEventView::End { name } => if name == group_tag() {
            ScanState { in_group: false, ..st }
        } else if name == link_tag() {
            ScanState { in_link: false, ..st }
        } else if name == deps_tag() {
            ScanState { in_deps: false, ..st }
        } else {
            st
        },
        XmlEventView::Text { .. } => st,
    }
}

/// The first text met inside a dependency list of a configuration block
/// that was asked for, reading from event `i` in state `st`.
pub open spec fn find_deps(ev: Seq<XmlEventView>, config: Seq<char>, i: int, st: ScanState) -> Option<Seq<char>>
    decreases ev.len() - i,
{
    if i < 0 || i >= ev.len() {
        None
    } else {
        match ev[i] {
            XmlEventView::Text { text } => if st.in_deps {
                Some(text)
            } else {
                find_deps(ev, config, i + 1, st)
            },
            _ => find_deps(ev, config, i + 1, scan_step(ev[i], config, st)),
        }
    }
}

pub open spec fn start_state() -> ScanState {
    ScanState { in_group: false, in_link: false, in_deps: false }
}

/// The libraries of a semicolon-separated dependency list.
pub open spec fn deps_args(text: Seq<char>) -> Seq<LinkArgView> {
    classify_all(split_tokens(text, Separator::Semicolon), Platform::Windows)
}

/// The libraries that a project file's events list for a configuration.
pub open spec fn events_deps(ev: Seq<XmlEventView>, config: Seq<char>) -> Option<Seq<LinkArgView>> {
    match find_deps(ev, config, 0, start_state()) {
        Some(text) => Some(deps_args(text)),
        None => None,
    }
}

pub open spec fn opt_args_view(o: Option<Vec<LinkArg>>) -> Option<Seq<LinkArgView>> {
    match o {
        Some(v) => Some(args_view(v@)),
        None => None,
    }
}

/// Whether a tag's attributes hold a `Condition` that names the
/// configuration.
pub fn attributes_name_config(attrs: &Vec<(String, String)>, config: &str) -> (r: bool)
    ensures
        r == names_config(attrs_view(attrs@), config@),
{
    let ghost v = attrs_view(attrs@);
    let mut k: usize = 0;
    while k < attrs.len()
        invariant
            v == attrs_view(attrs@),
            k <= attrs@.len(),
            forall|j: int| 0 <= j < k ==> !(v[j].0 == condition_key() && contains(v[j].1, config@)),
        decreases attrs@.len() - k,
    {
        let (key, value) = (&attrs[k].0, &attrs[k].1);
        if same_text(key.as_str(), "Condition") && contains_text(value.as_str(), config) {
            assert(v[k as int].0 == condition_key());
            return true;
        }
        k = k + 1;
    }
    false
}

/// The state after one event that is not the dependency list itself.
pub fn next_state(ev: &XmlEvent, config: &str, st: ScanState) -> (r: ScanState)
    ensures
        r == scan_step(ev@, config@, st),
{
    match ev {
        XmlEvent::Start { name, attributes } => {
            if same_text(name.as_str(), "ItemDefinitionGroup") {
                let hit = match read_attributes(attributes.as_str()) {
                    Some(attrs) => attributes_name_config(&attrs, config),
                    None => false,
                };
                ScanState { in_group: st.in_group || hit, ..st }
            } else if same_text(name.as_str(), "Link") && st.in_group {
                ScanState { in_link: true, ..st }
            } else if same_text(name.as_str(), "AdditionalDependencies") && st.in_group && st.in_link {
                ScanState { in_deps: true, ..st }
            } else {
                st
            }
        },
        XmlEvent::End { name } => {
            if same_text(name.as_str(), "ItemDefinitionGroup") {
                ScanState { in_group: false, ..st }
            } else if same_text(name.as_str(), "Link") {
                ScanState { in_link: false, ..st }
            } else if same_text(name.as_str(), "AdditionalDependencies") {
                ScanState { in_deps: false, ..st }
            } else {
                st
            }
        },
        XmlEvent::Text { .. } => st,
    }
}

/// The libraries that a project file's events list for the configuration
/// `build_type`: those of the first dependency list met inside a matching
/// configuration block, or `None` where there is no such list.
pub fn deps_from_events(events: &Vec<XmlEvent>, build_type: &str) -> (r: Option<Vec<LinkArg>>)
    ensures
        opt_args_view(r) == events_deps(events_view(events@), build_type@),
{
    let ghost ev = events_view(events@);
    let mut st = start_state_exec();
    let mut i: usize = 0;
    while i < events.len()
        invariant
            ev == events_view(events@),
            i <= events@.len(),
            find_deps(ev, build_type@, 0, start_state()) == find_deps(ev, build_type@, i as int, st),
        decreases events@.len() - i,
    {
        let e = &events[i];
        assert(ev[i as int] == e@);
        if let XmlEvent::Text { text } = e {
            if st.in_deps {
                let toks = split_tokens_exec(text.as_str(), Separator::Semicolon);
                let r = classify_tokens(&toks, 0, Platform::Windows);
                assert(strings_view(toks@).subrange(0, toks@.len() as int) =~= strings_view(toks@));
                return Some(r);
            }
        }
        st = next_state(e, build_type, st);
        i = i + 1;
    }
    None
}

fn start_state_exec() -> (r: ScanState)
    ensures
        r == start_state(),
{
    ScanState { in_group: false, in_link: false, in_deps: false }
}

/// The libraries that a project file lists for the configuration
/// `build_type`. `Err(MalformedProject)` where the document is malformed; `Ok(None)`
/// where no matching dependency list is found.
pub fn get_linking_from_vsproj(xml: &str, build_type: &str) -> (r: Result<Option<Vec<LinkArg>>, LinkError>)
    ensures
        match xml_events(xml@) {
            None => r is Err,
            Some(ev) => r is Ok && opt_args_view(r->Ok_0) == events_deps(ev, build_type@),
        },
{
    match read_xml_events(xml) {
        None => Err(LinkError::MalformedProject),
        Some(events) => Ok(deps_from_events(&events, build_type)),
    }
}

} // verus!
