//! Input-device descriptions: where a device sits ([`DeviceLocation`]), a
//! key press ([`Key`]) and the XKB settings of a keyboard.

use vstd::prelude::*;
use crate::text::{clone_opt_string, join_commas, join_with_commas, opt_str_view, opt_view, str_eq, views};

verus! {

/// A criterion on one attribute of a device: absent matches anything, present
/// matches exactly that value.
pub open spec fn criterion_holds(criterion: Option<Seq<char>>, actual: Option<Seq<char>>) -> bool {
    match criterion {
        Some(c) => actual == Some(c),
        None => true,
    }
}

/// Whether an optional criterion accepts an optional attribute value.
pub fn criterion_matches(criterion: &Option<String>, actual: Option<&str>) -> (r: bool)
    ensures
        r == criterion_holds(opt_view(*criterion), opt_str_view(actual)),
{
    match criterion {
        Some(c) => match actual {
            Some(a) => str_eq(c.as_str(), a),
            None => false,
        },
        None => true,
    }
}

/// Names the devices to which something applies, by name, port and seat; an
/// absent attribute matches every device.
#[derive(Debug, Clone, Hash)]
pub struct DeviceLocation {
    pub name: Option<String>,
    pub port: Option<String>,
    pub seat: Option<String>,
}

impl Default for DeviceLocation {
    fn default() -> (r: Self)
        ensures
            r.name is None,
            r.port is None,
            r.seat is None,
    {
        DeviceLocation { name: None, port: None, seat: None }
    }
}

impl DeviceLocation {
    /// The location of a libinput device: its name, its system name (the
    /// port) and the logical name of its seat.
    pub fn from_input_device(name: &str, sysname: &str, seat: &str) -> (r: Self)
        ensures
            opt_view(r.name) == Some(name@),
            opt_view(r.port) == Some(sysname@),
            opt_view(r.seat) == Some(seat@),
    {
        DeviceLocation {
            name: Some(name.to_owned()),
            port: Some(sysname.to_owned()),
            seat: Some(seat.to_owned()),
        }
    }

    /// The location names no attribute, so it matches every device.
    pub fn is_wildcard(&self) -> (r: bool)
        ensures
            r == (self.name is None && self.port is None && self.seat is None),
    {
        self.name.is_none() && self.port.is_none() && self.seat.is_none()
    }

    /// Every attribute that the location names equals the device's.
    pub fn matches(&self, name: Option<&str>, port: Option<&str>, seat: Option<&str>) -> (r: bool)
        ensures
            r == (criterion_holds(opt_view(self.name), opt_str_view(name)) && criterion_holds(
                opt_view(self.port),
                opt_str_view(port),
            ) && criterion_holds(opt_view(self.seat), opt_str_view(seat))),
    {
        if !criterion_matches(&self.name, name) {
            return false;
        }
        if !criterion_matches(&self.port, port) {
            return false;
        }
        if !criterion_matches(&self.seat, seat) {
            return false;
        }
        true
    }

    /// A copy of the location.
    pub fn duplicate(&self) -> (r: Self)
        ensures
            opt_view(r.name) == opt_view(self.name),
            opt_view(r.port) == opt_view(self.port),
            opt_view(r.seat) == opt_view(self.seat),
    {
        DeviceLocation {
            name: clone_opt_string(&self.name),
            port: clone_opt_string(&self.port),
            seat: clone_opt_string(&self.seat),
        }
    }
}

/// A wildcard location matches every device.
pub proof fn lemma_wildcard_matches_all(
    location: DeviceLocation,
    name: Option<Seq<char>>,
    port: Option<Seq<char>>,
    seat: Option<Seq<char>>,
)
    requires
        location.name is None && location.port is None && location.seat is None,
    ensures
        criterion_holds(opt_view(location.name), name) && criterion_holds(
            opt_view(location.port),
            port,
        ) && criterion_holds(opt_view(location.seat), seat),
{
}

/// A location made from a device matches that device.
pub proof fn lemma_device_matches_itself(
    location: DeviceLocation,
    name: Seq<char>,
    port: Seq<char>,
    seat: Seq<char>,
)
    requires
        opt_view(location.name) == Some(name),
        opt_view(location.port) == Some(port),
        opt_view(location.seat) == Some(seat),
    ensures
        criterion_holds(opt_view(location.name), Some(name)) && criterion_holds(
            opt_view(location.port),
            Some(port),
        ) && criterion_holds(opt_view(location.seat), Some(seat)),
{
}

/// An input device, as the configuration sees it.
#[derive(Debug, Clone, Default, PartialEq, Eq, Hash, Structural)]
pub struct Device {}

/// A key event: the keycode, the keysym and the text it produces, if any.
#[derive(Debug, Clone, Hash)]
pub struct Key {
    pub keycode: u32,
    pub keysym: u32,
    pub utf8: Option<String>,
}

impl Default for Key {
    fn default() -> (r: Self)
        ensures
            r.keycode == 0,
            r.keysym == 0,
            r.utf8 is None,
    {
        Key { keycode: 0, keysym: 0, utf8: None }
    }
}

/// A Lua value that names keyboard layouts or options: a string, a list of
/// strings, nil, or a value of another Lua type (named by the type).
pub enum LuaText {
    Nil,
    Str(String),
    List(Vec<String>),
    Other(String),
}

/// A Lua value that could not be converted.
#[derive(Debug, Clone)]
pub struct ConversionError {
    pub from: String,
    pub to: String,
    pub message: Option<String>,
}

/// The text that a Lua value gives: a string is taken as it is, a list is
/// joined with commas, nil gives none; other values give no text.
pub open spec fn lua_text(value: LuaText) -> Option<Option<Seq<char>>> {
    match value {
        LuaText::Nil => Some(None),
        LuaText::Str(s) => Some(Some(s@)),
        LuaText::List(items) => Some(Some(join_commas(views(items@)))),
        LuaText::Other(_) => None,
    }
}

/// `e` refuses `value`, a Lua value of another type, as a conversion to `to`.
pub open spec fn refusal(value: LuaText, e: ConversionError, to: Seq<char>) -> bool {
    &&& value matches LuaText::Other(ty) && e.from@ == ty@
    &&& e.to@ == to
    &&& opt_view(e.message) == Some("Expected String or table of Strings"@)
}

/// Reads a Lua value as optional text, or reports that it cannot be read,
/// naming what was expected.
fn text_from_lua(value: LuaText, to: &str) -> (r: Result<Option<String>, ConversionError>)
    ensures
        match lua_text(value) {
            Some(t) => r matches Ok(v) && opt_view(v) == t,
            None => r matches Err(e) && refusal(value, e, to@),
        },
{
    match value {
        LuaText::Nil => Ok(None),
        LuaText::Str(s) => Ok(Some(s)),
        LuaText::List(items) => Ok(Some(join_with_commas(&items))),
        LuaText::Other(ty) => Err(
            ConversionError {
                from: ty,
                to: to.to_owned(),
                message: Some("Expected String or table of Strings".to_owned()),
            },
        ),
    }
}

/// XKB layouts, comma separated; none means the default.
#[derive(Debug, Clone, Default, Hash)]
pub struct XkbLayout(pub Option<String>);

impl XkbLayout {
    /// The layout a Lua value names: a string, a list of strings (joined with
    /// commas) or nil; any other value is refused.
    pub fn from_lua(value: LuaText) -> (r: Result<XkbLayout, ConversionError>)
        ensures
            match lua_text(value) {
                Some(t) => r matches Ok(l) && opt_view(l.0) == t,
                None => r matches Err(e) && refusal(value, e, "Keyboard Layout"@),
            },
    {
        match text_from_lua(value, "Keyboard Layout") {
            Ok(t) => Ok(XkbLayout(t)),
            Err(e) => Err(e),
        }
    }
}

/// XKB options, comma separated; none means no option.
#[derive(Debug, Clone, Default, Hash)]
pub struct XkbOptions(pub Option<String>);

impl XkbOptions {
    /// The options a Lua value names: a string, a list of strings (joined
    /// with commas) or nil; any other value is refused.
    pub fn from_lua(value: LuaText) -> (r: Result<XkbOptions, ConversionError>)
        ensures
            match lua_text(value) {
                Some(t) => r matches Ok(o) && opt_view(o.0) == t,
                None => r matches Err(e) && refusal(value, e, "Keyboard Options"@),
            },
    {
        match text_from_lua(value, "Keyboard Options") {
            Ok(t) => Ok(XkbOptions(t)),
            Err(e) => Err(e),
        }
    }
}

/// The XKB configuration of a keyboard.
#[derive(Debug, Clone, Default, Hash)]
pub struct Config {
    pub layout: XkbLayout,
    pub options: XkbOptions,
}

} // verus!
