//! The details of a container, as a text.

use crate::text;
use vstd::prelude::*;

verus! {

/// A network that a container is in.
pub struct InspectNetwork {
    pub name: String,
    pub ip: Option<String>,
    pub gateway: Option<String>,
}

pub struct InspectMount {
    pub typ: Option<String>,
    pub source: Option<String>,
    pub destination: Option<String>,
}

/// Where a port is reached from the host.
pub struct InspectBinding {
    pub host_ip: Option<String>,
    pub host_port: Option<String>,
}

pub struct InspectPort {
    pub port: String,
    pub bindings: Option<Vec<InspectBinding>>,
}

pub struct InspectInfo {
    pub id: Option<String>,
    pub image: Option<String>,
    pub running: Option<bool>,
    pub status: Option<String>,
    pub health: Option<String>,
    pub started: Option<String>,
    pub finished: Option<String>,
    pub env: Option<Vec<String>>,
    pub networks: Option<Vec<InspectNetwork>>,
    pub mounts: Option<Vec<InspectMount>>,
    pub ports: Option<Vec<InspectPort>>,
}

/// A text that may be missing.
pub open spec fn or_text(o: Option<String>, missing: Seq<char>) -> Seq<char> {
    match o {
        Some(s) => s@,
        None => missing,
    }
}

fn or_else(o: &Option<String>, missing: &str) -> (r: String)
    ensures
        r@ == or_text(*o, missing@),
{
    match o {
        Some(s) => s.clone(),
        None => missing.to_owned(),
    }
}

impl InspectInfo {
    pub open spec fn runs(self) -> bool {
        self.running == Some(true)
    }

    pub open spec fn head_lines(self, name: Seq<char>) -> Seq<Seq<char>> {
        let head = seq![
            "# "@ + name + "\n\n"@,
            "ID      : "@ + or_text(self.id, Seq::empty()) + "\n"@,
            "Image   : "@ + or_text(self.image, Seq::empty()) + "\n"@,
            "State   : "@ + or_text(self.status, "unknown"@) + "  (running="@ + (if self.runs() {
                "true"@
            } else {
                "false"@
            }) + ", health="@ + or_text(self.health, "-"@) + ")\n"@,
            "Started : "@ + or_text(self.started, "-"@) + "\n"@,
        ];
        if self.runs() {
            head
        } else {
            head.push("Finished: "@ + or_text(self.finished, "-"@) + "\n"@)
        }
    }

    /// The environment: at most forty variables, and how many more there are.
    pub open spec fn env_lines(self) -> Seq<Seq<char>> {
        match self.env {
            Some(l) => if l@.len() == 0 {
                Seq::empty()
            } else {
                let n = if l@.len() > 40 {
                    40
                } else {
                    l@.len() as int
                };
                let shown = seq!["\n## Env\n"@] + Seq::new(
                    n as nat,
                    |i: int| "- "@ + l@[i]@ + "\n"@,
                );
                if l@.len() > 40 {
                    shown.push("… (+"@ + text::decimal((l@.len() - 40) as nat) + " env)\n"@)
                } else {
                    shown
                }
            },
            None => Seq::empty(),
        }
    }

    pub open spec fn network_lines(self) -> Seq<Seq<char>> {
        match self.networks {
            Some(l) => seq!["\n## Networks\n"@] + Seq::new(
                l@.len(),
                |i: int| network_line(l@[i]),
            ),
            None => Seq::empty(),
        }
    }

    pub open spec fn mount_lines(self) -> Seq<Seq<char>> {
        match self.mounts {
            Some(l) => if l@.len() == 0 {
                Seq::empty()
            } else {
                seq!["\n## Mounts\n"@] + Seq::new(l@.len(), |i: int| mount_line(l@[i]))
            },
            None => Seq::empty(),
        }
    }

    pub open spec fn port_lines(self) -> Seq<Seq<char>> {
        match self.ports {
            Some(l) => if l@.len() == 0 {
                Seq::empty()
            } else {
                seq!["\n## Ports\n"@] + all_port_lines(l@)
            },
            None => Seq::empty(),
        }
    }

    /// The whole text.
    pub open spec fn text(self, name: Seq<char>) -> Seq<char> {
        text::joined(
            self.head_lines(name) + self.env_lines() + self.network_lines() + self.mount_lines()
                + self.port_lines(),
            Seq::empty(),
        )
    }
}

pub open spec fn network_line(n: InspectNetwork) -> Seq<char> {
    "- "@ + n.name@ + ": ip="@ + or_text(n.ip, "-"@) + " gw="@ + or_text(n.gateway, "-"@) + "\n"@
}

pub open spec fn mount_line(m: InspectMount) -> Seq<char> {
    "- ["@ + or_text(m.typ, "-"@) + "] "@ + or_text(m.source, "-"@) + " → "@ + or_text(
        m.destination,
        "-"@,
    ) + "\n"@
}

pub open spec fn binding_line(b: InspectBinding, port: Seq<char>) -> Seq<char> {
    "- "@ + or_text(b.host_ip, "0.0.0.0"@) + ":"@ + or_text(b.host_port, "?"@) + " -> "@ + port
        + "\n"@
}

/// The lines of one port: one for each binding, or one for a port that is not bound.
pub open spec fn lines_of_port(p: InspectPort) -> Seq<Seq<char>> {
    match p.bindings {
        Some(l) => Seq::new(l@.len(), |i: int| binding_line(l@[i], p.port@)),
        None => seq!["- "@ + p.port@ + "\n"@],
    }
}

pub open spec fn all_port_lines(l: Seq<InspectPort>) -> Seq<Seq<char>>
    decreases l.len(),
{
    if l.len() == 0 {
        Seq::empty()
    } else {
        all_port_lines(l.drop_last()) + lines_of_port(l.last())
    }
}

fn head(ins: &InspectInfo, name: &str, out: &mut Vec<String>)
    ensures
        final(out).deep_view() == old(out).deep_view() + ins.head_lines(name@),
{
    let none: String = String::new();
    let ghost before = out.deep_view();
    let running: bool = match ins.running {
        Some(b) => b,
        None => false,
    };
    text::push_text(out, text::cat3("# ", name, "\n\n"));
    text::push_text(out, text::cat3("ID      : ", or_else(&ins.id, none.as_str()).as_str(), "\n"));
    text::push_text(
        out,
        text::cat3("Image   : ", or_else(&ins.image, none.as_str()).as_str(), "\n"),
    );
    let mut state = text::cat3(
        "State   : ",
        or_else(&ins.status, "unknown").as_str(),
        "  (running=",
    );
    if running {
        state.append("true");
    } else {
        state.append("false");
    }
    state.append(", health=");
    state.append(or_else(&ins.health, "-").as_str());
    state.append(")\n");
    text::push_text(out, state);
    text::push_text(out, text::cat3("Started : ", or_else(&ins.started, "-").as_str(), "\n"));
    if !running {
        text::push_text(out, text::cat3("Finished: ", or_else(&ins.finished, "-").as_str(), "\n"));
    }
    assert(out.deep_view() == before + ins.head_lines(name@));
}

fn env(ins: &InspectInfo, out: &mut Vec<String>)
    ensures
        final(out).deep_view() == old(out).deep_view() + ins.env_lines(),
{
    let ghost before = out.deep_view();
    match &ins.env {
        Some(l) => {
            if l.len() > 0 {
                let n: usize = if l.len() > 40 {
                    40
                } else {
                    l.len()
                };
                text::push_text(out, "\n## Env\n".to_owned());
                let ghost lines = Seq::new(n as nat, |i: int| "- "@ + l@[i]@ + "\n"@);
                let ghost start = before + seq!["\n## Env\n"@];
                let mut i: usize = 0;
                assert(start + lines.take(0) == start);
                assert(out.deep_view() == start);
                while i < n
                    invariant
                        i <= n <= l@.len(),
                        lines == Seq::new(n as nat, |i: int| "- "@ + l@[i]@ + "\n"@),
                        out.deep_view() == start + lines.take(i as int),
                    decreases n - i,
                {
                    text::push_text(out, text::cat3("- ", l[i].as_str(), "\n"));
                    assert(lines.take(i + 1) == lines.take(i as int).push(lines[i as int]));
                    assert(out.deep_view() == start + lines.take(i + 1));
                    i += 1;
                }
                assert(lines.take(n as int) == lines);
                if l.len() > 40 {
                    text::push_text(
                        out,
                        text::cat3("… (+", text::number((l.len() - 40) as u64).as_str(), " env)\n"),
                    );
                }
            }
        },
        None => {},
    }
    assert(out.deep_view() == before + ins.env_lines());
}

fn networks(ins: &InspectInfo, out: &mut Vec<String>)
    ensures
        final(out).deep_view() == old(out).deep_view() + ins.network_lines(),
{
    let ghost before = out.deep_view();
    match &ins.networks {
        Some(l) => {
            text::push_text(out, "\n## Networks\n".to_owned());
            let ghost lines = Seq::new(l@.len(), |i: int| network_line(l@[i]));
            let ghost start = before + seq!["\n## Networks\n"@];
            let mut i: usize = 0;
            assert(start + lines.take(0) == start);
            assert(out.deep_view() == start);
            while i < l.len()
                invariant
                    i <= l@.len(),
                    lines == Seq::new(l@.len(), |i: int| network_line(l@[i])),
                    out.deep_view() == start + lines.take(i as int),
                decreases l@.len() - i,
            {
                let n = &l[i];
                let mut s = text::cat3("- ", n.name.as_str(), ": ip=");
                s.append(or_else(&n.ip, "-").as_str());
                s.append(" gw=");
                s.append(or_else(&n.gateway, "-").as_str());
                s.append("\n");
                text::push_text(out, s);
                assert(lines.take(i + 1) == lines.take(i as int).push(lines[i as int]));
                assert(out.deep_view() == start + lines.take(i + 1));
                i += 1;
            }
            assert(lines.take(lines.len() as int) == lines);
        },
        None => {},
    }
    assert(out.deep_view() == before + ins.network_lines());
}

fn mounts(ins: &InspectInfo, out: &mut Vec<String>)
    ensures
        final(out).deep_view() == old(out).deep_view() + ins.mount_lines(),
{
    let ghost before = out.deep_view();
    match &ins.mounts {
        Some(l) => {
            if l.len() > 0 {
                text::push_text(out, "\n## Mounts\n".to_owned());
                let ghost lines = Seq::new(l@.len(), |i: int| mount_line(l@[i]));
                let ghost start = before + seq!["\n## Mounts\n"@];
                let mut i: usize = 0;
                assert(start + lines.take(0) == start);
                assert(out.deep_view() == start);
                while i < l.len()
                    invariant
                        i <= l@.len(),
                        lines == Seq::new(l@.len(), |i: int| mount_line(l@[i])),
                        out.deep_view() == start + lines.take(i as int),
                    decreases l@.len() - i,
                {
                    let m = &l[i];
                    let mut s = text::cat3("- [", or_else(&m.typ, "-").as_str(), "] ");
                    s.append(or_else(&m.source, "-").as_str());
                    s.append(" → ");
                    s.append(or_else(&m.destination, "-").as_str());
                    s.append("\n");
                    text::push_text(out, s);
                    assert(lines.take(i + 1) == lines.take(i as int).push(lines[i as int]));
                    assert(out.deep_view() == start + lines.take(i + 1));
                    i += 1;
                }
                assert(lines.take(lines.len() as int) == lines);
            }
        },
        None => {},
    }
    assert(out.deep_view() == before + ins.mount_lines());
}

fn port(p: &InspectPort, out: &mut Vec<String>)
    ensures
        final(out).deep_view() == old(out).deep_view() + lines_of_port(*p),
{
    let ghost before = out.deep_view();
    match &p.bindings {
        Some(l) => {
            let ghost lines = Seq::new(l@.len(), |i: int| binding_line(l@[i], p.port@));
            let mut i: usize = 0;
            assert(before + lines.take(0) == before);
            while i < l.len()
                invariant
                    i <= l@.len(),
                    lines == Seq::new(l@.len(), |i: int| binding_line(l@[i], p.port@)),
                    out.deep_view() == before + lines.take(i as int),
                decreases l@.len() - i,
            {
                let b = &l[i];
                let mut s = text::cat3("- ", or_else(&b.host_ip, "0.0.0.0").as_str(), ":");
                s.append(or_else(&b.host_port, "?").as_str());
                s.append(" -> ");
                s.append(p.port.as_str());
                s.append("\n");
                text::push_text(out, s);
                assert(lines.take(i + 1) == lines.take(i as int).push(lines[i as int]));
                assert(out.deep_view() == before + lines.take(i + 1));
                i += 1;
            }
            assert(lines.take(lines.len() as int) == lines);
        },
        None => {
            text::push_text(out, text::cat3("- ", p.port.as_str(), "\n"));
        },
    }
    assert(out.deep_view() == before + lines_of_port(*p));
}

fn ports(ins: &InspectInfo, out: &mut Vec<String>)
    ensures
        final(out).deep_view() == old(out).deep_view() + ins.port_lines(),
{
    let ghost before = out.deep_view();
    match &ins.ports {
        Some(l) => {
            if l.len() > 0 {
                text::push_text(out, "\n## Ports\n".to_owned());
                let ghost start = before + seq!["\n## Ports\n"@];
                let mut i: usize = 0;
                assert(out.deep_view() == start + all_port_lines(l@.take(0)));
                while i < l.len()
                    invariant
                        i <= l@.len(),
                        out.deep_view() == start + all_port_lines(l@.take(i as int)),
                    decreases l@.len() - i,
                {
                    port(&l[i], out);
                    assert(l@.take(i + 1).drop_last() == l@.take(i as int));
                    assert(out.deep_view() == start + all_port_lines(l@.take(i + 1)));
                    i += 1;
                }
                assert(l@.take(l@.len() as int) == l@);
            }
        },
        None => {},
    }
    assert(out.deep_view() == before + ins.port_lines());
}

/// The details of a container, as a text.
pub fn format_inspect(name: &str, ins: &InspectInfo) -> (r: String)
    ensures
        r@ == ins.text(name@),
{
    let mut out: Vec<String> = Vec::new();
    head(ins, name, &mut out);
    env(ins, &mut out);
    networks(ins, &mut out);
    mounts(ins, &mut out);
    ports(ins, &mut out);
    assert(out.deep_view() == ins.head_lines(name@) + ins.env_lines() + ins.network_lines()
        + ins.mount_lines() + ins.port_lines());
    let none: String = String::new();
    text::join(&out, none.as_str())
}

} // verus!
