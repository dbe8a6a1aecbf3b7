//! A container as the list knows it: what it is found by, sorted by and shown as.

use crate::order::{SortValue, SortValueView};
use crate::text;
use vstd::prelude::*;

verus! {

#[derive(Clone, Copy, Debug, PartialEq, Eq, Structural)]
pub enum ContainerState {
    Empty,
    Created,
    Running,
    Paused,
    Restarting,
    Exited,
    Removing,
    Dead,
}

#[derive(Clone, Copy, Debug, PartialEq, Eq, Structural)]
pub enum PortType {
    Empty,
    Tcp,
    Udp,
    Sctp,
}

#[derive(Clone, Copy, Debug, PartialEq, Eq, Structural)]
pub struct Port {
    pub private_port: u16,
    pub public_port: Option<u16>,
    pub typ: Option<PortType>,
}

pub struct ContainerSummary {
    pub id: Option<String>,
    pub names: Option<Vec<String>>,
    pub image: Option<String>,
    pub created: Option<i64>,
    pub ports: Option<Vec<Port>>,
    pub labels: Option<Vec<(String, String)>>,
    pub state: Option<ContainerState>,
}

#[verifier::ext_equal]
pub struct ContainerModel {
    pub id: Option<Seq<char>>,
    pub names: Option<Seq<Seq<char>>>,
    pub image: Option<Seq<char>>,
    pub created: Option<i64>,
    pub ports: Option<Seq<Port>>,
    pub labels: Option<Seq<(Seq<char>, Seq<char>)>>,
    pub state: Option<ContainerState>,
}

impl View for ContainerSummary {
    type V = ContainerModel;

    open spec fn view(&self) -> ContainerModel {
        ContainerModel {
            id: self.id.deep_view(),
            names: self.names.deep_view(),
            image: self.image.deep_view(),
            created: self.created,
            ports: match self.ports {
                Some(v) => Some(v@),
                None => None,
            },
            labels: self.labels.deep_view(),
            state: self.state,
        }
    }
}

impl DeepView for ContainerSummary {
    type V = ContainerModel;

    open spec fn deep_view(&self) -> ContainerModel {
        self@
    }
}

/// The name of a state, in capitals.
pub open spec fn state_capitals(s: ContainerState) -> Seq<char> {
    match s {
        ContainerState::Empty => "EMPTY"@,
        ContainerState::Created => "CREATED"@,
        ContainerState::Running => "RUNNING"@,
        ContainerState::Paused => "PAUSED"@,
        ContainerState::Restarting => "RESTARTING"@,
        ContainerState::Exited => "EXITED"@,
        ContainerState::Removing => "REMOVING"@,
        ContainerState::Dead => "DEAD"@,
    }
}

impl ContainerState {
    pub fn capitals(self) -> (r: String)
        ensures
            r@ == state_capitals(self),
    {
        match self {
            ContainerState::Empty => "EMPTY".to_owned(),
            ContainerState::Created => "CREATED".to_owned(),
            ContainerState::Running => "RUNNING".to_owned(),
            ContainerState::Paused => "PAUSED".to_owned(),
            ContainerState::Restarting => "RESTARTING".to_owned(),
            ContainerState::Exited => "EXITED".to_owned(),
            ContainerState::Removing => "REMOVING".to_owned(),
            ContainerState::Dead => "DEAD".to_owned(),
        }
    }
}

pub open spec fn port_type(t: Option<PortType>) -> Seq<char> {
    match t {
        Some(PortType::Empty) => "EMPTY"@,
        Some(PortType::Tcp) => "TCP"@,
        Some(PortType::Udp) => "UDP"@,
        Some(PortType::Sctp) => "SCTP"@,
        None => "tcp"@,
    }
}

/// A port, with the public one before the private one where there is one.
pub open spec fn port_text(p: Port) -> Seq<char> {
    let inside = text::decimal(p.private_port as nat) + "/"@ + port_type(p.typ);
    match p.public_port {
        Some(n) => if n > 0 {
            text::decimal(n as nat) + "->"@ + inside
        } else {
            inside
        },
        None => inside,
    }
}

pub open spec fn port_texts(l: Seq<Port>) -> Seq<Seq<char>> {
    Seq::new(l.len(), |i: int| port_text(l[i]))
}

impl ContainerModel {
    pub open spec fn first_name(self) -> Option<Seq<char>> {
        match self.names {
            Some(l) => if l.len() > 0 {
                Some(l[0])
            } else {
                None
            },
            None => None,
        }
    }

    /// The name that is shown.
    pub open spec fn name(self) -> Seq<char> {
        match self.first_name() {
            Some(n) => n,
            None => Seq::empty(),
        }
    }

    pub open spec fn image_text(self) -> Seq<char> {
        match self.image {
            Some(s) => s,
            None => Seq::empty(),
        }
    }

    pub open spec fn ports_text(self, sep: Seq<char>) -> Seq<char> {
        match self.ports {
            Some(l) => text::joined(port_texts(l), sep),
            None => Seq::empty(),
        }
    }

    pub open spec fn state_text(self, missing: Seq<char>) -> Seq<char> {
        match self.state {
            Some(s) => state_capitals(s),
            None => missing,
        }
    }
}

fn port_type_text(t: Option<PortType>) -> (r: String)
    ensures
        r@ == port_type(t),
{
    match t {
        Some(PortType::Empty) => "EMPTY".to_owned(),
        Some(PortType::Tcp) => "TCP".to_owned(),
        Some(PortType::Udp) => "UDP".to_owned(),
        Some(PortType::Sctp) => "SCTP".to_owned(),
        None => "tcp".to_owned(),
    }
}

impl Port {
    pub fn to_text(&self) -> (r: String)
        ensures
            r@ == port_text(*self),
    {
        let inside = text::cat3(
            text::number(self.private_port as u64).as_str(),
            "/",
            port_type_text(self.typ).as_str(),
        );
        match self.public_port {
            Some(n) => {
                if n > 0 {
                    text::cat3(text::number(n as u64).as_str(), "->", inside.as_str())
                } else {
                    inside
                }
            },
            None => inside,
        }
    }
}

impl ContainerSummary {
    /// The first name, if there is any.
    pub fn first_name(&self) -> (r: Option<String>)
        ensures
            r.deep_view() == self@.first_name(),
    {
        match &self.names {
            Some(l) => {
                if l.len() > 0 {
                    assert(l.deep_view()[0] == l@[0]@);
                    Some(l[0].clone())
                } else {
                    None
                }
            },
            None => None,
        }
    }

    pub fn name(&self) -> (r: String)
        ensures
            r@ == self@.name(),
    {
        match self.first_name() {
            Some(n) => n,
            None => String::new(),
        }
    }

    pub fn image_text(&self) -> (r: String)
        ensures
            r@ == self@.image_text(),
    {
        match &self.image {
            Some(s) => s.clone(),
            None => String::new(),
        }
    }

    /// The ports, with `sep` between them.
    pub fn ports_text(&self, sep: &str) -> (r: String)
        ensures
            r@ == self@.ports_text(sep@),
    {
        match &self.ports {
            Some(l) => {
                let mut texts: Vec<String> = Vec::new();
                let mut i: usize = 0;
                while i < l.len()
                    invariant
                        i <= l@.len(),
                        texts.deep_view() == port_texts(l@).take(i as int),
                    decreases l@.len() - i,
                {
                    text::push_text(&mut texts, l[i].to_text());
                    assert(port_texts(l@).take(i + 1) == port_texts(l@).take(i as int).push(
                        port_text(l@[i as int]),
                    ));
                    i += 1;
                }
                assert(port_texts(l@).take(l@.len() as int) == port_texts(l@));
                text::join(&texts, sep)
            },
            None => String::new(),
        }
    }

    /// The state in capitals, or `missing`.
    pub fn state_text(&self, missing: &str) -> (r: String)
        ensures
            r@ == self@.state_text(missing@),
    {
        match self.state {
            Some(s) => s.capitals(),
            None => missing.to_owned(),
        }
    }
}

/* ---------------- the query ---------------- */

/// A filter on labels: what a key holds, and what its value holds.
pub type LabelFilter = (String, Option<String>);

/// The words of a query that are looked for in a container's texts.
pub open spec fn query_tokens(l: Seq<Seq<char>>) -> Seq<Seq<char>>
    decreases l.len(),
{
    if l.len() == 0 {
        l
    } else if text::begins(l.last(), "@"@) {
        query_tokens(l.drop_last())
    } else {
        query_tokens(l.drop_last()).push(text::lowercase(l.last()))
    }
}

/// `@key` or `@key=value`, without the `@`.
pub open spec fn label_filter(rest: Seq<char>) -> (Seq<char>, Option<Seq<char>>) {
    match text::first_index(rest, '=') {
        Some(i) => (text::lowercase(rest.take(i)), Some(text::lowercase(rest.skip(i + 1)))),
        None => (text::lowercase(rest), None),
    }
}

/// The words of a query that are looked for in a container's labels.
pub open spec fn query_labels(l: Seq<Seq<char>>) -> Seq<(Seq<char>, Option<Seq<char>>)>
    decreases l.len(),
{
    if l.len() == 0 {
        Seq::empty()
    } else if text::begins(l.last(), "@"@) {
        query_labels(l.drop_last()).push(label_filter(l.last().skip("@"@.len() as int)))
    } else {
        query_labels(l.drop_last())
    }
}

fn parse_label(rest: &str) -> (r: LabelFilter)
    ensures
        r.deep_view() == label_filter(rest@),
{
    let v = text::chars_of(rest);
    let n: usize = v.len();
    match text::find_char(&v, '=') {
        Some(i) => {
            let k = text::slice_of(&v, 0, i);
            assert(i < n);
            let w = text::suffix_of(&v, i + 1);
            (text::lower(k.as_str()), Some(text::lower(w.as_str())))
        },
        None => (text::lower(rest), None),
    }
}

/// Splits a query into words to look for and filters on labels.
pub fn parse_query(q: &str) -> (r: (Vec<String>, Vec<LabelFilter>))
    ensures
        r.0.deep_view() == query_tokens(text::words(q@)),
        r.1.deep_view() == query_labels(text::words(q@)),
{
    let words = text::split_whitespace(q);
    let ghost l = words.deep_view();
    let mut tokens: Vec<String> = Vec::new();
    let mut labels: Vec<LabelFilter> = Vec::new();
    let mut i: usize = 0;
    assert(l.take(0) == Seq::<Seq<char>>::empty());
    assert(tokens.deep_view() == query_tokens(l.take(0)));
    assert(labels.deep_view() == query_labels(l.take(0)));
    while i < words.len()
        invariant
            i <= words@.len(),
            l == words.deep_view(),
            tokens.deep_view() == query_tokens(l.take(i as int)),
            labels.deep_view() == query_labels(l.take(i as int)),
        decreases words@.len() - i,
    {
        assert(l.take(i + 1).drop_last() == l.take(i as int));
        assert(l[i as int] == words@[i as int]@);
        match text::strip_prefix(words[i].as_str(), "@") {
            Some(rest) => {
                let ghost before = labels.deep_view();
                let f = parse_label(rest.as_str());
                labels.push(f);
                assert(labels.deep_view() == before.push(f.deep_view()));
            },
            None => text::push_text(&mut tokens, text::lower(words[i].as_str())),
        }
        i += 1;
    }
    assert(l.take(l.len() as int) == l);
    (tokens, labels)
}

/// A word stands in one of the four texts.
pub open spec fn found_in(
    name: Seq<char>,
    image: Seq<char>,
    state: Seq<char>,
    ports: Seq<char>,
    t: Seq<char>,
) -> bool {
    text::holds(name, t) || text::holds(image, t) || text::holds(state, t) || text::holds(ports, t)
}

/// A label fits a filter.
pub open spec fn label_fits(
    label: (Seq<char>, Seq<char>),
    filter: (Seq<char>, Option<Seq<char>>),
) -> bool {
    text::holds(label.0, filter.0) && (filter.1 matches Some(v) ==> text::holds(label.1, v))
}

pub open spec fn some_label_fits(
    labels: Seq<(Seq<char>, Seq<char>)>,
    filter: (Seq<char>, Option<Seq<char>>),
) -> bool {
    exists|j: int| 0 <= j < labels.len() && label_fits(#[trigger] labels[j], filter)
}

/// All words are found in the texts, and each filter is met by some label.
pub open spec fn texts_match(
    name: Seq<char>,
    image: Seq<char>,
    state: Seq<char>,
    ports: Seq<char>,
    labels: Option<Seq<(Seq<char>, Seq<char>)>>,
    tokens: Seq<Seq<char>>,
    filters: Seq<(Seq<char>, Option<Seq<char>>)>,
) -> bool {
    &&& forall|i: int|
        0 <= i < tokens.len() ==> found_in(name, image, state, ports, #[trigger] tokens[i])
    &&& filters.len() > 0 ==> labels is Some
    &&& forall|i: int|
        0 <= i < filters.len() ==> some_label_fits(labels->0, #[trigger] filters[i])
}

pub open spec fn lower_labels(l: Seq<(Seq<char>, Seq<char>)>) -> Seq<(Seq<char>, Seq<char>)> {
    Seq::new(l.len(), |i: int| (text::lowercase(l[i].0), text::lowercase(l[i].1)))
}

impl ContainerModel {
    /// The container meets a query.
    pub open spec fn matches(
        self,
        tokens: Seq<Seq<char>>,
        filters: Seq<(Seq<char>, Option<Seq<char>>)>,
    ) -> bool {
        texts_match(
            text::lowercase(self.name()),
            text::lowercase(self.image_text()),
            text::lowercase(self.state_text(Seq::empty())),
            match self.ports {
                Some(_) => text::lowercase(self.ports_text("  "@)),
                None => Seq::empty(),
            },
            match self.labels {
                Some(l) => Some(lower_labels(l)),
                None => None,
            },
            tokens,
            filters,
        )
    }
}

/// A container's texts and labels, all in lower case, meet a query.
pub fn texts_visible(
    name: &str,
    image: &str,
    state: &str,
    ports: &str,
    labels: &Option<Vec<(String, String)>>,
    tokens: &Vec<String>,
    filters: &Vec<LabelFilter>,
) -> (r: bool)
    ensures
        r == texts_match(
            name@,
            image@,
            state@,
            ports@,
            labels.deep_view(),
            tokens.deep_view(),
            filters.deep_view(),
        ),
{
    let ghost tv = tokens.deep_view();
    let ghost fv = filters.deep_view();
    let mut i: usize = 0;
    while i < tokens.len()
        invariant
            i <= tokens@.len(),
            tv == tokens.deep_view(),
            forall|k: int| 0 <= k < i ==> found_in(name@, image@, state@, ports@, #[trigger] tv[k]),
        decreases tokens@.len() - i,
    {
        assert(tv[i as int] == tokens@[i as int]@);
        let t = tokens[i].as_str();
        if !(text::contains(name, t) || text::contains(image, t) || text::contains(state, t)
            || text::contains(ports, t)) {
            return false;
        }
        i += 1;
    }
    if filters.len() == 0 {
        return true;
    }
    match labels {
        None => false,
        Some(l) => {
            let mut j: usize = 0;
            while j < filters.len()
                invariant
                    j <= filters@.len(),
                    fv == filters.deep_view(),
                    labels.deep_view() == Some(l.deep_view()),
                    forall|k: int|
                        0 <= k < j ==> some_label_fits(l.deep_view(), #[trigger] fv[k]),
                decreases filters@.len() - j,
            {
                assert(fv[j as int] == filters@[j as int].deep_view());
                if !any_label_fits(l, &filters[j]) {
                    return false;
                }
                j += 1;
            }
            true
        },
    }
}

fn any_label_fits(l: &Vec<(String, String)>, f: &LabelFilter) -> (r: bool)
    ensures
        r == some_label_fits(l.deep_view(), f.deep_view()),
{
    let ghost lv = l.deep_view();
    let mut i: usize = 0;
    while i < l.len()
        invariant
            i <= l@.len(),
            lv == l.deep_view(),
            forall|k: int| 0 <= k < i ==> !label_fits(#[trigger] lv[k], f.deep_view()),
        decreases l@.len() - i,
    {
        assert(lv[i as int] == l@[i as int].deep_view());
        if text::contains(l[i].0.as_str(), f.0.as_str()) {
            let fits = match &f.1 {
                Some(v) => text::contains(l[i].1.as_str(), v.as_str()),
                None => true,
            };
            if fits {
                return true;
            }
        }
        i += 1;
    }
    false
}

fn lower_all(l: &Vec<(String, String)>) -> (r: Vec<(String, String)>)
    ensures
        r.deep_view() == lower_labels(l.deep_view()),
{
    let ghost lv = l.deep_view();
    let mut out: Vec<(String, String)> = Vec::new();
    let mut i: usize = 0;
    while i < l.len()
        invariant
            i <= l@.len(),
            lv == l.deep_view(),
            out.deep_view() == lower_labels(lv).take(i as int),
        decreases l@.len() - i,
    {
        assert(lv[i as int] == l@[i as int].deep_view());
        let ghost before = out.deep_view();
        let p = (text::lower(l[i].0.as_str()), text::lower(l[i].1.as_str()));
        out.push(p);
        assert(out.deep_view() == before.push(p.deep_view()));
        assert(lower_labels(lv).take(i + 1) == lower_labels(lv).take(i as int).push(p.deep_view()));
        i += 1;
    }
    assert(lower_labels(lv).take(lv.len() as int) == lower_labels(lv));
    out
}

/// Does a container meet a query?
pub fn match_visible(c: &ContainerSummary, tokens: &Vec<String>, filters: &Vec<LabelFilter>) -> (r:
    bool)
    ensures
        r == c@.matches(tokens.deep_view(), filters.deep_view()),
{
    let name = text::lower(c.name().as_str());
    let image = text::lower(c.image_text().as_str());
    let missing: String = String::new();
    let state = text::lower(c.state_text(missing.as_str()).as_str());
    let ports = if c.ports.is_some() {
        text::lower(c.ports_text("  ").as_str())
    } else {
        String::new()
    };
    let labels = match &c.labels {
        Some(l) => Some(lower_all(l)),
        None => None,
    };
    texts_visible(
        name.as_str(),
        image.as_str(),
        state.as_str(),
        ports.as_str(),
        &labels,
        tokens,
        filters,
    )
}

/* ---------------- sorting ---------------- */

#[derive(Clone, Copy, Debug, PartialEq, Eq, Structural)]
pub enum SortKey {
    Name,
    Image,
    State,
    Created,
    Ports,
}

impl ContainerModel {
    pub open spec fn sort_value(self, key: SortKey) -> SortValueView {
        match key {
            SortKey::Name => SortValueView::Text(text::lowercase(self.name())),
            SortKey::Image => SortValueView::Text(text::lowercase(self.image_text())),
            SortKey::State => SortValueView::Text(text::lowercase(self.state_text("~"@))),
            SortKey::Created => SortValueView::Num(
                match self.created {
                    Some(t) => t,
                    None => 0,
                },
            ),
            SortKey::Ports => SortValueView::Text(
                match self.ports {
                    Some(l) => text::decimal(l.len()),
                    None => Seq::empty(),
                },
            ),
        }
    }
}

pub fn key_name(c: &ContainerSummary) -> (r: String)
    ensures
        r@ == text::lowercase(c@.name()),
{
    text::lower(c.name().as_str())
}

pub fn key_image(c: &ContainerSummary) -> (r: String)
    ensures
        r@ == text::lowercase(c@.image_text()),
{
    text::lower(c.image_text().as_str())
}

pub fn key_state(c: &ContainerSummary) -> (r: String)
    ensures
        r@ == text::lowercase(c@.state_text("~"@)),
{
    text::lower(c.state_text("~").as_str())
}

pub fn key_created(c: &ContainerSummary) -> (r: i64)
    ensures
        r == (match c@.created {
            Some(t) => t,
            None => 0,
        }),
{
    match c.created {
        Some(t) => t,
        None => 0,
    }
}

/// The number of ports, as a text.
pub fn key_ports(c: &ContainerSummary) -> (r: String)
    ensures
        SortValueView::Text(r@) == c@.sort_value(SortKey::Ports),
{
    match &c.ports {
        Some(l) => text::number(l.len() as u64),
        None => String::new(),
    }
}

/// What a container is sorted by.
pub fn sort_value(c: &ContainerSummary, key: SortKey) -> (r: SortValue)
    ensures
        r@ == c@.sort_value(key),
{
    match key {
        SortKey::Name => SortValue::Text(key_name(c)),
        SortKey::Image => SortValue::Text(key_image(c)),
        SortKey::State => SortValue::Text(key_state(c)),
        SortKey::Created => SortValue::Num(key_created(c)),
        SortKey::Ports => SortValue::Text(key_ports(c)),
    }
}

} // verus!
