use vstd::prelude::*;
use vstd::string::StringExecFns;
use crate::pool::{ClientKey, Interface, SockType};

verus! {

/// An IP address as plain values.
#[derive(Clone, Copy, Debug, PartialEq, Eq, Structural)]
pub enum IpAddress {
    V4(u32),
    V6(u128),
}

/// Settings that apply to every target unless it overrides them: those of
/// the configuration file, or those of the command line. Times are in
/// nanoseconds.
#[derive(Clone, Debug)]
pub struct Defaults {
    pub iface: Option<Interface>,
    pub netns: Option<String>,
    pub ttl: Option<u32>,
    pub sock_type: Option<SockType>,
    pub interval_nanos: Option<u64>,
    pub timeout_nanos: Option<u64>,
}

/// One target entry as written: the address and its own overrides. `netns`
/// is `Some(None)` where the entry asks for no namespace at all.
#[derive(Clone, Debug)]
pub struct Options {
    pub target: IpAddress,
    pub iface: Option<Interface>,
    pub netns: Option<Option<String>>,
    pub ttl: Option<u32>,
    pub timeout_nanos: Option<u64>,
    pub interval_nanos: Option<u64>,
}

/// A target with its effective settings.
#[derive(Clone, Debug)]
pub struct TargetSpec {
    pub target: IpAddress,
    pub iface: Option<Interface>,
    pub netns: Option<String>,
    pub ttl: Option<u32>,
    pub sock_type: SockType,
    pub timeout_nanos: Option<u64>,
    pub interval_nanos: Option<u64>,
}

/// The fields a structured target entry may hold.
#[derive(Clone, Copy, Debug, PartialEq, Eq, Structural)]
pub enum OptionField {
    Target,
    Interface,
    Ttl,
    Timeout,
    Interval,
    Netns,
}

#[derive(Clone, Copy, Debug, PartialEq, Eq, Structural)]
pub enum ConfigError {
    /// A structured target entry names a field that is not one of its own.
    UnknownField,
    /// A structured target entry has no `target` field.
    MissingTarget,
}

/// The first of three optional values that is there.
pub open spec fn first_of<T>(a: Option<T>, b: Option<T>, c: Option<T>) -> Option<T> {
    if a is Some {
        a
    } else if b is Some {
        b
    } else {
        c
    }
}

fn first_copy<T: Copy>(a: Option<T>, b: Option<T>, c: Option<T>) -> (r: Option<T>)
    ensures
        r == first_of(a, b, c),
{
    if a.is_some() {
        a
    } else if b.is_some() {
        b
    } else {
        c
    }
}

fn clone_iface(i: &Interface) -> (r: Interface)
    ensures
        crate::pool::iface_view(Some(r)) == crate::pool::iface_view(Some(*i)),
{
    match i {
        Interface::Addr(a) => Interface::Addr(*a),
        Interface::Name(n) => Interface::Name(n.clone()),
    }
}

fn first_iface(a: &Option<Interface>, b: &Option<Interface>, c: &Option<Interface>) -> (r: Option<
    Interface,
>)
    ensures
        crate::pool::iface_view(r) == crate::pool::iface_view(first_of(*a, *b, *c)),
{
    match (a, b, c) {
        (Some(x), _, _) => Some(clone_iface(x)),
        (None, Some(x), _) => Some(clone_iface(x)),
        (None, None, Some(x)) => Some(clone_iface(x)),
        (None, None, None) => None,
    }
}

fn clone_text(s: &Option<String>) -> (r: Option<String>)
    ensures
        crate::pool::text_view(r) == crate::pool::text_view(*s),
{
    match s {
        Some(t) => Some(t.clone()),
        None => None,
    }
}

/// The namespace a target ends up in: its own choice where it makes one
/// (none included), else the file's, else the command line's.
pub open spec fn netns_of(own: Option<Option<String>>, file: Option<String>, cli: Option<String>) -> Option<
    Seq<char>,
> {
    match own {
        Some(choice) => crate::pool::text_view(choice),
        None => crate::pool::text_view(first_of(file, cli, None)),
    }
}

/// Merges a target entry with the defaults: each setting comes from the
/// entry where it has one, else from the file, else from the command line.
/// The socket kind is never set per target; with none given it is datagram.
pub fn resolve(t: &Options, file: &Defaults, cli: &Defaults) -> (r: TargetSpec)
    ensures
        r.target == t.target,
        crate::pool::iface_view(r.iface) == crate::pool::iface_view(
            first_of(t.iface, file.iface, cli.iface),
        ),
        crate::pool::text_view(r.netns) == netns_of(t.netns, file.netns, cli.netns),
        r.ttl == first_of(t.ttl, file.ttl, cli.ttl),
        r.sock_type == match first_of(file.sock_type, cli.sock_type, None) {
            Some(k) => k,
            None => SockType::Dgram,
        },
        r.interval_nanos == first_of(t.interval_nanos, file.interval_nanos, cli.interval_nanos),
        r.timeout_nanos == first_of(t.timeout_nanos, file.timeout_nanos, cli.timeout_nanos),
{
    let sock_type = match first_copy(file.sock_type, cli.sock_type, None) {
        Some(k) => k,
        None => SockType::Dgram,
    };
    let netns = match &t.netns {
        Some(choice) => clone_text(choice),
        None => match &file.netns {
            Some(n) => Some(n.clone()),
            None => clone_text(&cli.netns),
        },
    };
    TargetSpec {
        target: t.target,
        iface: first_iface(&t.iface, &file.iface, &cli.iface),
        netns,
        ttl: first_copy(t.ttl, file.ttl, cli.ttl),
        sock_type,
        timeout_nanos: first_copy(t.timeout_nanos, file.timeout_nanos, cli.timeout_nanos),
        interval_nanos: first_copy(t.interval_nanos, file.interval_nanos, cli.interval_nanos),
    }
}

impl TargetSpec {
    /// The key of the client this target probes through.
    pub fn client_key(&self) -> (r: ClientKey)
        ensures
            crate::pool::iface_view(r.iface) == crate::pool::iface_view(self.iface),
            crate::pool::text_view(r.netns) == crate::pool::text_view(self.netns),
            r.ttl == self.ttl,
            r.sock_type == self.sock_type,
            r.v6 == (self.target is V6),
    {
        let iface = match &self.iface {
            Some(i) => Some(clone_iface(i)),
            None => None,
        };
        ClientKey {
            iface,
            netns: clone_text(&self.netns),
            ttl: self.ttl,
            sock_type: self.sock_type,
            v6: match self.target {
                IpAddress::V4(_) => false,
                IpAddress::V6(_) => true,
            },
        }
    }
}

impl Options {
    /// An entry given as a bare address: no overrides.
    pub fn bare(target: IpAddress) -> (r: Options)
        ensures
            r.target == target,
            r.iface is None,
            r.netns is None,
            r.ttl is None,
            r.timeout_nanos is None,
            r.interval_nanos is None,
    {
        Options {
            target,
            iface: None,
            netns: None,
            ttl: None,
            timeout_nanos: None,
            interval_nanos: None,
        }
    }
}

/// The field that a key of a structured entry names.
pub open spec fn field_of(name: Seq<char>) -> Option<OptionField> {
    if name == "target"@ {
        Some(OptionField::Target)
    } else if name == "interface"@ {
        Some(OptionField::Interface)
    } else if name == "ttl"@ {
        Some(OptionField::Ttl)
    } else if name == "timeout"@ {
        Some(OptionField::Timeout)
    } else if name == "interval"@ {
        Some(OptionField::Interval)
    } else if name == "netns"@ {
        Some(OptionField::Netns)
    } else {
        None
    }
}

/// Reads a key of a structured target entry; any other name is refused.
pub fn option_field(name: &String) -> (r: Result<OptionField, ConfigError>)
    ensures
        r == match field_of(name@) {
            Some(f) => Ok(f),
            None => Err(ConfigError::UnknownField),
        },
{
    if *name == String::from_str("target") {
        Ok(OptionField::Target)
    } else if *name == String::from_str("interface") {
        Ok(OptionField::Interface)
    } else if *name == String::from_str("ttl") {
        Ok(OptionField::Ttl)
    } else if *name == String::from_str("timeout") {
        Ok(OptionField::Timeout)
    } else if *name == String::from_str("interval") {
        Ok(OptionField::Interval)
    } else if *name == String::from_str("netns") {
        Ok(OptionField::Netns)
    } else {
        Err(ConfigError::UnknownField)
    }
}

/// The fields of a structured target entry read so far.
#[derive(Clone, Debug)]
pub struct OptionsDraft {
    pub target: Option<IpAddress>,
    pub iface: Option<Interface>,
    pub netns: Option<Option<String>>,
    pub ttl: Option<u32>,
    pub timeout_nanos: Option<u64>,
    pub interval_nanos: Option<u64>,
}

impl OptionsDraft {
    /// A draft with no field read.
    pub fn new() -> (r: OptionsDraft)
        ensures
            r.target is None,
            r.iface is None,
            r.netns is None,
            r.ttl is None,
            r.timeout_nanos is None,
            r.interval_nanos is None,
    {
        OptionsDraft {
            target: None,
            iface: None,
            netns: None,
            ttl: None,
            timeout_nanos: None,
            interval_nanos: None,
        }
    }

    /// The entry, once every key is read: accepted, with every field carried
    /// over, exactly when it has a target; refused as missing its target
    /// otherwise.
    pub fn finish(self) -> (r: Result<Options, ConfigError>)
        ensures
            self.target is Some <==> r is Ok,
            self.target is None <==> r == Err::<Options, ConfigError>(ConfigError::MissingTarget),
            r is Ok ==> ({
                let o = r->Ok_0;
                &&& Some(o.target) == self.target
                &&& o.iface == self.iface
                &&& o.netns == self.netns
                &&& o.ttl == self.ttl
                &&& o.timeout_nanos == self.timeout_nanos
                &&& o.interval_nanos == self.interval_nanos
            }),
    {
        match self.target {
            Some(target) => Ok(
                Options {
                    target,
                    iface: self.iface,
                    netns: self.netns,
                    ttl: self.ttl,
                    timeout_nanos: self.timeout_nanos,
                    interval_nanos: self.interval_nanos,
                },
            ),
            None => Err(ConfigError::MissingTarget),
        }
    }
}

} // verus!
