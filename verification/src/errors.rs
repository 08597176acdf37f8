//! `IpcError`: the single error shape returned to the frontend. Typed errors
//! from the lower layers flatten into this tagged union so the UI can switch
//! on the kind.

use vstd::prelude::*;

use crate::text::push_str;

verus! {

/// Error returned by every GUI command.
#[derive(Debug)]
pub enum IpcError {
    /// The daemon was reachable but rejected the request.
    Daemon(String),
    /// The daemon could not be reached, or the transport failed mid-call.
    DaemonUnreachable(String),
    /// Configuration load / save / validation failed.
    Config(String),
    /// Display detection failed.
    Detect(String),
    /// The layout could not be computed.
    Layout(String),
    /// The wallpaper backend rejected the apply.
    Backend(String),
    /// Image load / decode / save failed.
    Image(String),
    /// Library scan / index / FS error.
    Library(String),
    /// The frontend supplied an invalid argument.
    InvalidArgument(String),
    /// Anything else.
    Internal(String),
}

/// The message an error carries.
pub open spec fn message_of(e: IpcError) -> Seq<char> {
    match e {
        IpcError::Daemon(m) => m@,
        IpcError::DaemonUnreachable(m) => m@,
        IpcError::Config(m) => m@,
        IpcError::Detect(m) => m@,
        IpcError::Layout(m) => m@,
        IpcError::Backend(m) => m@,
        IpcError::Image(m) => m@,
        IpcError::Library(m) => m@,
        IpcError::InvalidArgument(m) => m@,
        IpcError::Internal(m) => m@,
    }
}

/// The tag an error serialises with (`kind`).
pub open spec fn kind_of(e: IpcError) -> Seq<char> {
    match e {
        IpcError::Daemon(_) => "Daemon"@,
        IpcError::DaemonUnreachable(_) => "DaemonUnreachable"@,
        IpcError::Config(_) => "Config"@,
        IpcError::Detect(_) => "Detect"@,
        IpcError::Layout(_) => "Layout"@,
        IpcError::Backend(_) => "Backend"@,
        IpcError::Image(_) => "Image"@,
        IpcError::Library(_) => "Library"@,
        IpcError::InvalidArgument(_) => "InvalidArgument"@,
        IpcError::Internal(_) => "Internal"@,
    }
}

/// The human-readable prefix of each kind.
pub open spec fn display_prefix(e: IpcError) -> Seq<char> {
    match e {
        IpcError::Daemon(_) => "daemon: "@,
        IpcError::DaemonUnreachable(_) => "daemon unreachable: "@,
        IpcError::Config(_) => "config: "@,
        IpcError::Detect(_) => "detect: "@,
        IpcError::Layout(_) => "layout: "@,
        IpcError::Backend(_) => "backend: "@,
        IpcError::Image(_) => "image: "@,
        IpcError::Library(_) => "library: "@,
        IpcError::InvalidArgument(_) => "invalid argument: "@,
        IpcError::Internal(_) => "internal: "@,
    }
}

fn owned(m: &str) -> (s: String)
    ensures
        s@ == m@,
{
    let mut s = String::new();
    push_str(&mut s, m);
    s
}

impl IpcError {
    /// An invalid-argument error.
    pub fn invalid(m: &str) -> (e: IpcError)
        ensures
            e matches IpcError::InvalidArgument(s) && s@ == m@,
    {
        IpcError::InvalidArgument(owned(m))
    }

    /// An internal error.
    pub fn internal(m: &str) -> (e: IpcError)
        ensures
            e matches IpcError::Internal(s) && s@ == m@,
    {
        IpcError::Internal(owned(m))
    }

    /// The message this error carries.
    pub fn message(&self) -> (m: &str)
        ensures
            m@ == message_of(*self),
    {
        match self {
            IpcError::Daemon(m) => m.as_str(),
            IpcError::DaemonUnreachable(m) => m.as_str(),
            IpcError::Config(m) => m.as_str(),
            IpcError::Detect(m) => m.as_str(),
            IpcError::Layout(m) => m.as_str(),
            IpcError::Backend(m) => m.as_str(),
            IpcError::Image(m) => m.as_str(),
            IpcError::Library(m) => m.as_str(),
            IpcError::InvalidArgument(m) => m.as_str(),
            IpcError::Internal(m) => m.as_str(),
        }
    }

    /// The serialisation tag of this error.
    pub fn kind(&self) -> (k: &'static str)
        ensures
            k@ == kind_of(*self),
    {
        match self {
            IpcError::Daemon(_) => "Daemon",
            IpcError::DaemonUnreachable(_) => "DaemonUnreachable",
            IpcError::Config(_) => "Config",
            IpcError::Detect(_) => "Detect",
            IpcError::Layout(_) => "Layout",
            IpcError::Backend(_) => "Backend",
            IpcError::Image(_) => "Image",
            IpcError::Library(_) => "Library",
            IpcError::InvalidArgument(_) => "InvalidArgument",
            IpcError::Internal(_) => "Internal",
        }
    }

    /// The text `Display` shows: `<kind prefix><message>`.
    pub fn to_display_string(&self) -> (s: String)
        ensures
            s@ == display_prefix(*self) + message_of(*self),
    {
        let prefix = match self {
            IpcError::Daemon(_) => "daemon: ",
            IpcError::DaemonUnreachable(_) => "daemon unreachable: ",
            IpcError::Config(_) => "config: ",
            IpcError::Detect(_) => "detect: ",
            IpcError::Layout(_) => "layout: ",
            IpcError::Backend(_) => "backend: ",
            IpcError::Image(_) => "image: ",
            IpcError::Library(_) => "library: ",
            IpcError::InvalidArgument(_) => "invalid argument: ",
            IpcError::Internal(_) => "internal: ",
        };
        let mut s = String::new();
        push_str(&mut s, prefix);
        push_str(&mut s, self.message());
        s
    }
}

} // verus!
