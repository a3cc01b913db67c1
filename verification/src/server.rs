//! The servers that instances can be pointed at, by name.

use crate::api::ApiContext;
use crate::string_map::StringMap;
use vstd::prelude::*;
use vstd::string::StringExecFns;

verus! {

/// A server: a display name, a host and a port.
#[derive(Debug)]
pub struct Server {
    pub name: String,
    pub ip: String,
    pub port: u16,
}

impl Clone for Server {
    fn clone(&self) -> (copy: Self)
        ensures
            copy == *self,
    {
        Server { name: self.name.clone(), ip: self.ip.clone(), port: self.port }
    }
}

/// The character of a decimal digit.
pub open spec fn digit(value: nat) -> char {
    if value == 0 {
        '0'
    } else if value == 1 {
        '1'
    } else if value == 2 {
        '2'
    } else if value == 3 {
        '3'
    } else if value == 4 {
        '4'
    } else if value == 5 {
        '5'
    } else if value == 6 {
        '6'
    } else if value == 7 {
        '7'
    } else if value == 8 {
        '8'
    } else {
        '9'
    }
}

/// A number in decimal, without leading zeros.
pub open spec fn decimal(value: nat) -> Seq<char>
    decreases value,
{
    if value < 10 {
        seq![digit(value)]
    } else {
        decimal(value / 10).push(digit(value % 10))
    }
}

fn digit_text(value: u16) -> (text: &'static str)
    requires
        value < 10,
    ensures
        text@ == seq![digit(value as nat)],
{
    proof {
        reveal_strlit("0");
        reveal_strlit("1");
        reveal_strlit("2");
        reveal_strlit("3");
        reveal_strlit("4");
        reveal_strlit("5");
        reveal_strlit("6");
        reveal_strlit("7");
        reveal_strlit("8");
        reveal_strlit("9");
    }
    let text = if value == 0 {
        "0"
    } else if value == 1 {
        "1"
    } else if value == 2 {
        "2"
    } else if value == 3 {
        "3"
    } else if value == 4 {
        "4"
    } else if value == 5 {
        "5"
    } else if value == 6 {
        "6"
    } else if value == 7 {
        "7"
    } else if value == 8 {
        "8"
    } else {
        "9"
    };
    assert(text@ =~= seq![digit(value as nat)]);
    text
}

fn decimal_text(value: u16) -> (text: String)
    ensures
        text@ == decimal(value as nat),
    decreases value,
{
    if value < 10 {
        String::from_str(digit_text(value))
    } else {
        let text = decimal_text(value / 10).concat(digit_text(value % 10));
        assert(text@ =~= decimal(value as nat));
        text
    }
}

impl Server {
    /// A server of these three values.
    pub fn new(name: String, ip: String, port: u16) -> (server: Self)
        ensures
            server == (Server { name, ip, port }),
    {
        Server { name, ip, port }
    }

    /// The address of this server: host and port with a colon between.
    pub open spec fn address(&self) -> Seq<char> {
        self.ip@ + ":"@ + decimal(self.port as nat)
    }

    /// The address of this server: host and port with a colon between.
    pub fn to_string(&self) -> (text: String)
        ensures
            text@ == self.address(),
    {
        self.ip.clone().concat(":").concat(decimal_text(self.port).as_str())
    }
}

/// Why a change to the server list was refused.
#[derive(Debug)]
pub enum ServerError {
    /// A server of that name is already listed.
    AlreadyExists(String),
    /// No server of that name is listed.
    NotFound(String),
}

impl ServerError {
    /// The message of this error.
    pub open spec fn message(&self) -> Seq<char> {
        match self {
            ServerError::AlreadyExists(name) => "Server "@ + name@ + " already exists"@,
            ServerError::NotFound(name) => "Server "@ + name@ + " does not exist"@,
        }
    }

    /// The message of this error.
    pub fn to_string(&self) -> (text: String)
        ensures
            text@ == self.message(),
    {
        match self {
            ServerError::AlreadyExists(name) => String::from_str("Server ").concat(
                name.as_str(),
            ).concat(" already exists"),
            ServerError::NotFound(name) => String::from_str("Server ").concat(
                name.as_str(),
            ).concat(" does not exist"),
        }
    }
}

/// The listed servers, each under its name.
#[derive(Debug)]
pub struct List(pub StringMap<Server>);

impl View for List {
    type V = Map<Seq<char>, Server>;

    open spec fn view(&self) -> Map<Seq<char>, Server> {
        self.0@
    }
}

impl List {
    /// The invariant of the list.
    pub open spec fn wf(&self) -> bool {
        self.0.wf()
    }

    /// An empty list.
    pub fn new() -> (list: Self)
        ensures
            list.wf(),
            list@ == Map::<Seq<char>, Server>::empty(),
    {
        List(StringMap::new())
    }

    /// The server listed under `name`, if any.
    pub fn get_server(&self, name: &String) -> (server: Option<&Server>)
        requires
            self.wf(),
        ensures
            match server {
                Some(s) => self@.contains_key(name@) && *s == self@[name@],
                None => !self@.contains_key(name@),
            },
    {
        self.0.get(name.as_str())
    }
}

/// Lists a server under `name`, unless one is listed there already.
pub fn create(api: &mut ApiContext, name: String, ip: String, port: u16) -> (done: Result<
    (),
    ServerError,
>)
    requires
        old(api).wf(),
    ensures
        final(api).wf(),
        final(api).controllers == old(api).controllers,
        final(api).clients == old(api).clients,
        final(api).ongoing_auths == old(api).ongoing_auths,
        final(api).auth_cache == old(api).auth_cache,
        match done {
            Ok(_) => !old(api).servers@.contains_key(name@) && final(api).servers@ == old(api).servers@.insert(name@, Server { name, ip, port }),
            Err(error) => old(api).servers@.contains_key(name@) && error
                == ServerError::AlreadyExists(name) && final(api).servers == old(api).servers,
        },
{
    if api.servers.0.contains_key(name.as_str()) {
        return Err(ServerError::AlreadyExists(name));
    }
    let server = Server::new(name.clone(), ip, port);
    api.servers.0.insert(name, server);
    Ok(())
}

/// Takes the server under `name` off the list, if there is one.
pub fn delete(api: &mut ApiContext, name: String) -> (done: Result<(), ServerError>)
    requires
        old(api).wf(),
    ensures
        final(api).wf(),
        final(api).controllers == old(api).controllers,
        final(api).clients == old(api).clients,
        final(api).ongoing_auths == old(api).ongoing_auths,
        final(api).auth_cache == old(api).auth_cache,
        match done {
            Ok(_) => old(api).servers@.contains_key(name@) && final(api).servers@ == old(api).servers@.remove(name@),
            Err(error) => !old(api).servers@.contains_key(name@) && error == ServerError::NotFound(
                name,
            ) && final(api).servers == old(api).servers,
        },
{
    if !api.servers.0.contains_key(name.as_str()) {
        return Err(ServerError::NotFound(name));
    }
    api.servers.0.remove(name.as_str());
    Ok(())
}

} // verus!
