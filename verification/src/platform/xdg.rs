//! Session-bus portal backend, for the Linux/BSD family.
//!
//! State is read through the desktop settings portal: one generic key-value
//! read against the `org.freedesktop.appearance` namespace, keys
//! `color-scheme`, `contrast` and `accent-color`. Desktop-kind detection is
//! a side query — whether the GTK portal implementation currently owns its
//! well-known bus name — and is a best-effort heuristic, not a certainty:
//! sessions running neither or both are classified as Qt or Gtk anyway.
//!
//! Error mapping is table-driven: the bus faults that mean "this desktop
//! does not implement the portal or this key" collapse to `Unsupported`,
//! every other bus-level fault becomes `Platform`. The table itself is
//! verified; only the calls into the bus are taken on trust.

use vstd::prelude::*;

use std::sync::Arc;

use zbus::blocking::Connection;
use zbus::zvariant::OwnedValue;
use zbus::Message;

use crate::channel::accent_from_bits;
use crate::error::Error;
use crate::notify::{notify_all_waiters, notify_handle_new, notify_handle_share};
use crate::theme::{ThemeAccent, ThemeContrast, ThemeKind, ThemeScheme};

verus! {

/// A session-bus connection. Outside type, opaque to verification.
#[verifier::external_type_specification]
#[verifier::external_body]
pub struct ExConnection(Connection);

/// A bus message. Outside type, opaque to verification.
#[verifier::external_type_specification]
#[verifier::external_body]
pub struct ExMessage(Message);

/// A decoded bus value. Outside type, opaque to verification.
#[verifier::external_type_specification]
#[verifier::external_body]
pub struct ExOwnedValue(OwnedValue);

/// A bus fault, as plain values: what the error-mapping table decides on.
/// Every wrapper around a bus call classifies the bus library's error into
/// this, one variant per case it distinguishes, before verified code sees
/// it.
#[derive(Debug)]
pub enum BusFault {
    /// The bus interface was not found.
    InterfaceNotFound,
    /// The bus library itself reported the operation as unsupported.
    Unsupported,
    /// A method call came back as an error reply: its error name, and its
    /// detail text if the reply carried one.
    MethodError(String, Option<String>),
    /// Any other bus-level fault, as text.
    Other(String),
}

/// Relies on zbus `blocking::Connection::session`, and on the variants of
/// the bus library's error for the classification of a failure: connects to
/// the session bus, or reports why it could not.
#[verifier::external_body]
fn connect_session() -> (r: Result<Connection, BusFault>) {
    match Connection::session() {
        Ok(conn) => Ok(conn),
        Err(zbus::Error::InterfaceNotFound) => Err(BusFault::InterfaceNotFound),
        Err(zbus::Error::Unsupported) => Err(BusFault::Unsupported),
        Err(zbus::Error::MethodError(name, detail, _)) => Err(
            BusFault::MethodError(name.to_string(), detail),
        ),
        Err(other) => Err(BusFault::Other(format!("{other}"))),
    }
}

/// Relies on zbus `blocking::Connection::call_method`, here calling the
/// desktop settings portal's `ReadOne` method with a namespace and a key,
/// and on the variants of the bus library's error for the classification of
/// a failure: the reply message carries the value of that key, an error
/// reply carries the service's error name.
#[verifier::external_body]
fn call_read_one(conn: &Connection, namespace: &str, key: &str) -> (r: Result<Message, BusFault>) {
    let target = ("org.freedesktop.portal.Desktop", "/org/freedesktop/portal/desktop");
    match conn.call_method(Some(target.0), target.1, Some("org.freedesktop.portal.Settings"), "ReadOne", &(namespace, key)) {
        Ok(msg) => Ok(msg),
        Err(zbus::Error::InterfaceNotFound) => Err(BusFault::InterfaceNotFound),
        Err(zbus::Error::Unsupported) => Err(BusFault::Unsupported),
        Err(zbus::Error::MethodError(name, detail, _)) => Err(
            BusFault::MethodError(name.to_string(), detail),
        ),
        Err(other) => Err(BusFault::Other(format!("{other}"))),
    }
}

/// Relies on zbus `Body::deserialize`, and on the variants of the bus
/// library's error for the classification of a failure: decodes a reply
/// message's body as a single value.
#[verifier::external_body]
fn read_message_value(msg: &Message) -> (r: Result<OwnedValue, BusFault>) {
    match msg.body().deserialize::<OwnedValue>() {
        Ok(value) => Ok(value),
        Err(zbus::Error::InterfaceNotFound) => Err(BusFault::InterfaceNotFound),
        Err(zbus::Error::Unsupported) => Err(BusFault::Unsupported),
        Err(zbus::Error::MethodError(name, detail, _)) => Err(
            BusFault::MethodError(name.to_string(), detail),
        ),
        Err(other) => Err(BusFault::Other(format!("{other}"))),
    }
}

/// Relies on zvariant `Value::downcast_ref`: the inner `u32` when the value
/// holds one, `None` otherwise.
#[verifier::external_body]
fn value_to_u32(value: &OwnedValue) -> (r: Option<u32>) {
    value.downcast_ref::<u32>().ok()
}

/// Relies on zvariant's `Value` representation: the bit patterns of the
/// three doubles when the value holds a structure of exactly three doubles
/// (the portal's accent-color triple), `None` otherwise.
#[verifier::external_body]
fn value_to_rgb_bits(value: &OwnedValue) -> (r: Option<(u64, u64, u64)>) {
    let inner: &zbus::zvariant::Value = match &**value {
        zbus::zvariant::Value::Value(boxed) => boxed,
        other => other,
    };
    match inner {
        zbus::zvariant::Value::Structure(s) => match s.fields() {
            [zbus::zvariant::Value::F64(a), zbus::zvariant::Value::F64(b), zbus::zvariant::Value::F64(
                c,
            )] => Some((a.to_bits(), b.to_bits(), c.to_bits())),
            _ => None,
        },
        _ => None,
    }
}

/// Relies on zbus `blocking::fdo::DBusProxy::new` and `get_name_owner`:
/// `Ok(true)` when the given well-known bus name currently has an owner,
/// `Ok(false)` when the bus answers that it has none, and the fault's text
/// otherwise.
#[verifier::external_body]
fn query_name_owner(conn: &Connection, name: &str) -> (r: Result<bool, String>) {
    let proxy = match zbus::blocking::fdo::DBusProxy::new(conn) {
        Ok(proxy) => proxy,
        Err(e) => return Err(format!("{e}")),
    };
    let bus_name: zbus::names::BusName<'_> = match name.try_into() {
        Ok(bus_name) => bus_name,
        Err(e) => return Err(format!("{e}")),
    };
    match proxy.get_name_owner(bus_name) {
        Ok(_) => Ok(true),
        Err(zbus::fdo::Error::NameHasNoOwner(_)) => Ok(false),
        Err(e) => Err(format!("{e}")),
    }
}

/// The error names of a method error reply that mean the desktop does not
/// implement the portal or this key: the portal's own not-found error, an
/// unknown service, and an unknown method.
pub open spec fn unsupported_error_name(name: Seq<char>) -> bool {
    name == "org.freedesktop.portal.Error.NotFound"@ || name
        == "org.freedesktop.DBus.Error.ServiceUnknown"@ || name
        == "org.freedesktop.DBus.Error.UnknownMethod"@
}

/// The text a method error turns into when it is not one of the portal
/// misses: the error name, with the detail appended when the reply carried
/// one.
pub open spec fn method_error_text(name: Seq<char>, detail: Option<String>) -> Seq<char> {
    match detail {
        Some(d) => name + ": "@ + d@,
        None => name,
    }
}

impl Error {
    /// The table-driven mapping of a bus fault: interface-not-found,
    /// unsupported, and the method errors named by `unsupported_error_name`
    /// collapse to `Unsupported`; every other fault becomes `Platform` with
    /// its text.
    pub fn from_bus_fault(fault: BusFault) -> (r: Error)
        ensures
            fault is InterfaceNotFound ==> r == Error::Unsupported,
            fault is Unsupported ==> r == Error::Unsupported,
            fault matches BusFault::MethodError(name, detail) ==> (if unsupported_error_name(
                name@,
            ) {
                r == Error::Unsupported
            } else {
                r matches Error::Platform(text) && text@ == method_error_text(name@, detail)
            }),
            fault matches BusFault::Other(text) ==> r == Error::Platform(text),
            r is Unsupported || r is Platform,
    {
        match fault {
            BusFault::InterfaceNotFound => Error::Unsupported,
            BusFault::Unsupported => Error::Unsupported,
            BusFault::MethodError(name, detail) => {
                let portal_not_found: String = "org.freedesktop.portal.Error.NotFound".to_owned();
                let service_unknown: String = "org.freedesktop.DBus.Error.ServiceUnknown"
                    .to_owned();
                let method_unknown: String = "org.freedesktop.DBus.Error.UnknownMethod".to_owned();
                if name == portal_not_found || name == service_unknown || name == method_unknown {
                    Error::Unsupported
                } else {
                    match detail {
                        Some(d) => Error::Platform(name.concat(": ").concat(d.as_str())),
                        None => Error::Platform(name),
                    }
                }
            },
            BusFault::Other(text) => Error::Platform(text),
        }
    }
}

/// The session-bus portal backend, immutable after construction.
pub struct Platform {
    conn: Connection,
    notify: Arc<tokio::sync::Notify>,
}

impl Platform {
    /// The backend's session-bus connection, as a spec value.
    pub closed spec fn spec_connection(&self) -> Connection {
        self.conn
    }

    /// The backend's notification primitive, as a spec value.
    pub closed spec fn spec_notify(&self) -> Arc<tokio::sync::Notify> {
        self.notify
    }

    /// A read-only borrow of the session-bus connection, for the host's
    /// portal signal watcher.
    pub fn connection(&self) -> (r: &Connection)
        ensures
            *r == self.spec_connection(),
    {
        &self.conn
    }

    /// Create the backend by connecting to the session bus. A connection
    /// fault goes through the error table, so the result is `Unsupported`
    /// or `Platform`, never anything else.
    pub fn new() -> (r: Result<Platform, Error>)
        ensures
            r matches Err(e) ==> e is Unsupported || e is Platform,
    {
        match connect_session() {
            Ok(conn) => Ok(Platform { conn, notify: notify_handle_new() }),
            Err(fault) => Err(Error::from_bus_fault(fault)),
        }
    }

    /// Whether a well-known bus name currently has an owner. A bus fault
    /// here is not a portal miss, so it maps to `Platform` directly.
    pub fn check_has_owner(&self, name: &str) -> (r: Result<bool, Error>)
        ensures
            r matches Err(e) ==> e is Platform,
    {
        match query_name_owner(&self.conn, name) {
            Ok(owned) => Ok(owned),
            Err(cause) => Err(Error::from_platform(cause)),
        }
    }

    /// The desktop-environment family: Gtk when the GTK portal
    /// implementation owns its bus name, Qt otherwise. A heuristic, not a
    /// certainty: a session running neither, or both, is still classified.
    pub fn theme_kind(&self) -> (r: Result<ThemeKind, Error>)
        ensures
            r matches Ok(kind) ==> kind == ThemeKind::Gtk || kind == ThemeKind::Qt,
            r matches Err(e) ==> e is Platform,
    {
        match self.check_has_owner("org.freedesktop.impl.portal.desktop.gtk") {
            Ok(gtk_owned) => Ok(kind_from_gtk_owner(gtk_owned)),
            Err(e) => Err(e),
        }
    }

    /// Read one appearance setting from the portal: the value of a key in
    /// the `org.freedesktop.appearance` namespace. Every bus fault, from
    /// the call or from decoding the reply, goes through the error table.
    pub fn get_settings_apperance(&self, key: &str) -> (r: Result<OwnedValue, Error>)
        ensures
            r matches Err(e) ==> e is Unsupported || e is Platform,
    {
        let msg = match call_read_one(&self.conn, "org.freedesktop.appearance", key) {
            Ok(msg) => msg,
            Err(fault) => {
                return Err(Error::from_bus_fault(fault));
            },
        };
        match read_message_value(&msg) {
            Ok(value) => Ok(value),
            Err(fault) => Err(Error::from_bus_fault(fault)),
        }
    }

    /// The light/dark preference, from the `color-scheme` key: `1` is dark,
    /// `2` is light, everything else — the no-preference value `0` included
    /// — is `Unavailable`.
    pub fn theme_scheme(&self) -> (r: Result<ThemeScheme, Error>)
        ensures
            r matches Err(e) ==> e is Unsupported || e is Unavailable || e is Platform,
    {
        let value = match self.get_settings_apperance("color-scheme") {
            Ok(value) => value,
            Err(e) => {
                return Err(e);
            },
        };
        match value_to_u32(&value) {
            Some(scheme) => scheme_from_portal(scheme),
            None => Err(Error::Unavailable),
        }
    }

    /// The contrast preference, from the `contrast` key: `0` is normal, `1`
    /// is high, everything else is `Unavailable`.
    pub fn theme_contrast(&self) -> (r: Result<ThemeContrast, Error>)
        ensures
            r matches Err(e) ==> e is Unsupported || e is Unavailable || e is Platform,
    {
        let value = match self.get_settings_apperance("contrast") {
            Ok(value) => value,
            Err(e) => {
                return Err(e);
            },
        };
        match value_to_u32(&value) {
            Some(contrast) => contrast_from_portal(contrast),
            None => Err(Error::Unavailable),
        }
    }

    /// The accent color, from the `accent-color` key: a triple of doubles,
    /// range-validated. A missing triple, or any component outside the unit
    /// range, means the accent is not configured: `Unavailable`.
    pub fn theme_accent(&self) -> (r: Result<ThemeAccent, Error>)
        ensures
            r matches Ok(accent) ==> accent.wf(),
            r matches Err(e) ==> e is Unsupported || e is Unavailable || e is Platform,
    {
        let value = match self.get_settings_apperance("accent-color") {
            Ok(value) => value,
            Err(e) => {
                return Err(e);
            },
        };
        match value_to_rgb_bits(&value) {
            Some((red_bits, green_bits, blue_bits)) => {
                match accent_from_bits(red_bits, green_bits, blue_bits) {
                    Some(accent) => Ok(accent),
                    None => Err(Error::Unavailable),
                }
            },
            None => Err(Error::Unavailable),
        }
    }

    /// A handle to the notification primitive the portal's change signal
    /// funnels into.
    pub fn get_notify(&self) -> (r: Arc<tokio::sync::Notify>)
        ensures
            r == self.spec_notify(),
    {
        notify_handle_share(&self.notify)
    }

    /// Translate one settings-changed signal into a wake-up of every
    /// consumer currently waiting on the notification primitive. The host
    /// drives the portal's signal subscription and calls this per event;
    /// safe to call from whatever thread delivers it.
    pub fn signal_change(&self) {
        notify_all_waiters(&self.notify);
    }
}

/// What the owner check's answer means for the desktop-environment family:
/// Gtk exactly when the GTK portal implementation owns its well-known bus
/// name, Qt in every other case.
pub fn kind_from_gtk_owner(gtk_owned: bool) -> (kind: ThemeKind)
    ensures
        kind == (if gtk_owned {
            ThemeKind::Gtk
        } else {
            ThemeKind::Qt
        }),
{
    if gtk_owned {
        ThemeKind::Gtk
    } else {
        ThemeKind::Qt
    }
}

/// What the portal's `color-scheme` value means: `1` is dark, `2` is light,
/// everything else carries no usable preference.
pub fn scheme_from_portal(value: u32) -> (r: Result<ThemeScheme, Error>)
    ensures
        value == 1 ==> r == Result::<ThemeScheme, Error>::Ok(ThemeScheme::Dark),
        value == 2 ==> r == Result::<ThemeScheme, Error>::Ok(ThemeScheme::Light),
        value != 1 && value != 2 ==> r == Result::<ThemeScheme, Error>::Err(Error::Unavailable),
{
    match value {
        1 => Ok(ThemeScheme::Dark),
        2 => Ok(ThemeScheme::Light),
        _ => Err(Error::Unavailable),
    }
}

/// What the portal's `contrast` value means: `0` is normal, `1` is high,
/// everything else carries no usable preference.
pub fn contrast_from_portal(value: u32) -> (r: Result<ThemeContrast, Error>)
    ensures
        value == 0 ==> r == Result::<ThemeContrast, Error>::Ok(ThemeContrast::Normal),
        value == 1 ==> r == Result::<ThemeContrast, Error>::Ok(ThemeContrast::High),
        value != 0 && value != 1 ==> r == Result::<ThemeContrast, Error>::Err(Error::Unavailable),
{
    match value {
        0 => Ok(ThemeContrast::Normal),
        1 => Ok(ThemeContrast::High),
        _ => Err(Error::Unavailable),
    }
}

} // verus!
