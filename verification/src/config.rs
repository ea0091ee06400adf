//! The settings of the server and the context of a request.

use vstd::prelude::*;

verus! {

/// The port that the server listens on unless told otherwise.
pub const DEFAULT_PORT: u16 = 8080;

/// The settings given on the command line.
#[derive(Clone, Debug, PartialEq, Eq)]
pub struct Args {
    /// The port to listen on.
    pub port: u16,
    /// The directory that holds the certificate and its key.
    pub cert_path: String,
}

/// The directory that holds the certificate unless told otherwise.
pub open spec fn default_cert_path() -> Seq<char> {
    ".certs"@
}

impl Default for Args {
    /// The settings of a server started without arguments.
    fn default() -> (args: Args)
        ensures
            args.port == DEFAULT_PORT,
            args.cert_path@ == default_cert_path(),
    {
        Args { port: DEFAULT_PORT, cert_path: ".certs".to_owned() }
    }
}

/// The name of the cookie that carries the device identifier.
pub const DEVICE_COOKIE: &'static str = "device_id";

/// What a request from one device is handled with.
#[derive(Clone, Debug, PartialEq, Eq)]
pub struct AppContext {
    /// The identifier of the device, which is never empty.
    pub device_id: String,
}

/// Why a request is turned away before it is handled.
#[derive(Clone, Copy, Debug, PartialEq, Eq, Structural)]
pub enum Rejection {
    /// The request names no device.
    MissingDevice,
}

impl Rejection {
    /// The status code that the request is answered with.
    pub fn status(&self) -> (code: u16)
        ensures
            code == 400,
    {
        400
    }

    /// What the answer says.
    pub fn message(&self) -> (text: &'static str)
        ensures
            text@ == "Cookie `device_id` is missing"@,
    {
        "Cookie `device_id` is missing"
    }
}

impl AppContext {
    /// The context of a request whose device cookie holds `cookie`, if it has
    /// the cookie at all. The request is handled exactly when the cookie is
    /// there and not empty; the identifier is then what the cookie holds.
    pub fn from_cookie(cookie: Option<&str>) -> (context: Result<AppContext, Rejection>)
        ensures
            match context {
                Ok(c) => cookie matches Some(value) && value@.len() > 0 && c.device_id@ == value@,
                Err(rejection) => rejection == Rejection::MissingDevice && !(cookie matches Some(
                    value,
                ) && value@.len() > 0),
            },
    {
        match cookie {
            Some(value) => {
                if value.is_empty() {
                    Err(Rejection::MissingDevice)
                } else {
                    Ok(AppContext { device_id: value.to_owned() })
                }
            },
            None => Err(Rejection::MissingDevice),
        }
    }
}

/// Whether a visitor whose device cookie holds `cookie`, if there is one, is
/// to be given a new device identifier: a visitor without the cookie is.
pub fn needs_device_id(cookie: Option<&str>) -> (needed: bool)
    ensures
        needed == (cookie is None),
{
    cookie.is_none()
}

} // verus!
