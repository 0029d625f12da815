//! The options tree that the editor's configuration resolves to.

use vstd::prelude::*;

verus! {

/// The connection section of the options. Every field may be absent.
#[derive(Debug, PartialEq, Eq, Clone)]
pub struct Conn {
    pub active: Option<bool>,
    pub host: Option<String>,
    pub port: Option<u16>,
    pub super_port: Option<u16>,
    pub ns: Option<String>,
    pub username: Option<String>,
    pub password: Option<String>,
}

/// The `objectscript` section of the options.
#[derive(Debug, PartialEq, Eq, Clone)]
pub struct Objectscript {
    pub conn: Option<Conn>,
}

/// The effective options of the editor session.
#[derive(Debug, PartialEq, Eq, Clone)]
pub struct Options {
    pub objectscript: Option<Objectscript>,
}

/// The characters of an optional string.
pub open spec fn text_of(s: Option<String>) -> Option<Seq<char>> {
    match s {
        Some(t) => Some(t@),
        None => None,
    }
}

/// A connection section as plain values.
pub struct ConnView {
    pub active: Option<bool>,
    pub host: Option<Seq<char>>,
    pub port: Option<u16>,
    pub super_port: Option<u16>,
    pub ns: Option<Seq<char>>,
    pub username: Option<Seq<char>>,
    pub password: Option<Seq<char>>,
}

impl ConnView {
    /// The section in which every field is absent.
    pub open spec fn absent() -> ConnView {
        ConnView {
            active: None,
            host: None,
            port: None,
            super_port: None,
            ns: None,
            username: None,
            password: None,
        }
    }
}

impl View for Conn {
    type V = ConnView;

    open spec fn view(&self) -> ConnView {
        ConnView {
            active: self.active,
            host: text_of(self.host),
            port: self.port,
            super_port: self.super_port,
            ns: text_of(self.ns),
            username: text_of(self.username),
            password: text_of(self.password),
        }
    }
}

impl View for Objectscript {
    type V = Option<ConnView>;

    open spec fn view(&self) -> Option<ConnView> {
        match self.conn {
            Some(conn) => Some(conn@),
            None => None,
        }
    }
}

impl View for Options {
    /// The connection section that the tree holds, if it holds one.
    type V = Option<ConnView>;

    open spec fn view(&self) -> Option<ConnView> {
        match self.objectscript {
            Some(objectscript) => objectscript@,
            None => None,
        }
    }
}

impl Default for Conn {
    fn default() -> (conn: Self)
        ensures
            conn@ == ConnView::absent(),
    {
        Conn {
            active: None,
            host: None,
            port: None,
            super_port: None,
            ns: None,
            username: None,
            password: None,
        }
    }
}

impl Default for Objectscript {
    fn default() -> (objectscript: Self)
        ensures
            objectscript.conn is None,
    {
        Objectscript { conn: None }
    }
}

impl Default for Options {
    fn default() -> (options: Self)
        ensures
            options.objectscript is None,
    {
        Options { objectscript: None }
    }
}

} // verus!
