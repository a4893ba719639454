use vstd::prelude::*;

use crate::error::SnapError;
use crate::id::{guid_bytes, snapin_clsid, spec_snapin_clsid};
use crate::node::{Node, NodeView};
use crate::utf16::{le_bytes_of, utf16z_le_bytes, utf16z_of};

verus! {

/// The data formats that a node can render.
#[derive(Debug, Clone, Copy, PartialEq, Eq, Structural)]
pub enum ClipFormat {
    /// `CCF_DISPLAY_NAME`: the node's display name.
    DisplayName,
    /// `CCF_NODETYPE`: the identifier of the node type.
    NodeType,
    /// `CCF_SNAPIN_CLSID`: the identifier of the owning component.
    SnapinClsid,
}

/// The kind of medium that a data request is to be written into.
#[derive(Debug, Clone, Copy, PartialEq, Eq, Structural)]
pub enum TagTYMED {
    HGlobal,
    File,
    IStream,
    IStorage,
    Gdi,
    Metafile,
    EnhMetafile,
    Null,
    /// A code that names none of the kinds above.
    Unknown(i32),
}

/// The medium kind that a numeric code names.
pub open spec fn tymed_of(code: i32) -> TagTYMED {
    if code == 1 {
        TagTYMED::HGlobal
    } else if code == 2 {
        TagTYMED::File
    } else if code == 4 {
        TagTYMED::IStream
    } else if code == 8 {
        TagTYMED::IStorage
    } else if code == 16 {
        TagTYMED::Gdi
    } else if code == 32 {
        TagTYMED::Metafile
    } else if code == 64 {
        TagTYMED::EnhMetafile
    } else if code == 0 {
        TagTYMED::Null
    } else {
        TagTYMED::Unknown(code)
    }
}

/// The numeric code of a medium kind.
pub open spec fn tymed_code(t: TagTYMED) -> i32 {
    match t {
        TagTYMED::HGlobal => 1,
        TagTYMED::File => 2,
        TagTYMED::IStream => 4,
        TagTYMED::IStorage => 8,
        TagTYMED::Gdi => 16,
        TagTYMED::Metafile => 32,
        TagTYMED::EnhMetafile => 64,
        TagTYMED::Null => 0,
        TagTYMED::Unknown(c) => c,
    }
}

impl TagTYMED {
    /// The medium kind that `code` names; `Unknown` for any other code.
    pub fn from_code(code: i32) -> (r: TagTYMED)
        ensures
            r == tymed_of(code),
    {
        match code {
            1 => TagTYMED::HGlobal,
            2 => TagTYMED::File,
            4 => TagTYMED::IStream,
            8 => TagTYMED::IStorage,
            16 => TagTYMED::Gdi,
            32 => TagTYMED::Metafile,
            64 => TagTYMED::EnhMetafile,
            0 => TagTYMED::Null,
            _ => TagTYMED::Unknown(code),
        }
    }

    /// The numeric code of this medium kind.
    pub fn code(&self) -> (r: i32)
        ensures
            r == tymed_code(*self),
    {
        match self {
            TagTYMED::HGlobal => 1,
            TagTYMED::File => 2,
            TagTYMED::IStream => 4,
            TagTYMED::IStorage => 8,
            TagTYMED::Gdi => 16,
            TagTYMED::Metafile => 32,
            TagTYMED::EnhMetafile => 64,
            TagTYMED::Null => 0,
            TagTYMED::Unknown(c) => *c,
        }
    }
}

/// The format that a registered format name stands for, if nodes render it.
pub open spec fn format_of(name: Seq<char>) -> Option<ClipFormat> {
    if name == "CCF_DISPLAY_NAME"@ {
        Some(ClipFormat::DisplayName)
    } else if name == "CCF_NODETYPE"@ {
        Some(ClipFormat::NodeType)
    } else if name == "CCF_SNAPIN_CLSID"@ {
        Some(ClipFormat::SnapinClsid)
    } else {
        None
    }
}

/// The bytes written for a format on behalf of a node.
pub open spec fn payload_of(f: ClipFormat, n: NodeView) -> Seq<u8> {
    match f {
        ClipFormat::DisplayName => le_bytes_of(utf16z_of(n.display_name)),
        ClipFormat::NodeType => guid_bytes(spec_snapin_clsid()),
        ClipFormat::SnapinClsid => guid_bytes(spec_snapin_clsid()),
    }
}

/// The outcome of resolving a format name.
pub open spec fn resolved(name: Seq<char>) -> Result<ClipFormat, SnapError> {
    if name.len() == 0 {
        Err(SnapError::FormatResolutionFailed)
    } else {
        match format_of(name) {
            Some(f) => Ok(f),
            None => Err(SnapError::UnsupportedFormat),
        }
    }
}

/// What a data request for the format named `name`, into a medium of kind
/// `medium`, writes on behalf of node `n`, or why it fails.
pub open spec fn transfer_of(n: NodeView, name: Seq<char>, medium: TagTYMED) -> Result<Seq<u8>, SnapError> {
    match resolved(name) {
        Err(e) => Err(e),
        Ok(f) => if medium != TagTYMED::HGlobal {
            Err(SnapError::UnsupportedMedium)
        } else {
            Ok(payload_of(f, n))
        },
    }
}

fn same_text(a: &str, b: &str) -> (r: bool)
    ensures
        r == (a@ == b@),
{
    let n = a.unicode_len();
    if n != b.unicode_len() {
        return false;
    }
    let mut i: usize = 0;
    while i < n
        invariant
            n == a@.len(),
            n == b@.len(),
            i <= n,
            forall|j: int| 0 <= j < i ==> a@[j] == b@[j],
        decreases n - i,
    {
        if a.get_char(i) != b.get_char(i) {
            return false;
        }
        i = i + 1;
    }
    assert(a@ =~= b@);
    true
}

/// Resolves a registered format name, as the host reported it, to a format
/// that nodes render.
pub fn resolve_format(name: &str) -> (r: Result<ClipFormat, SnapError>)
    ensures
        r == resolved(name@),
{
    if name.unicode_len() == 0 {
        Err(SnapError::FormatResolutionFailed)
    } else if same_text(name, "CCF_DISPLAY_NAME") {
        Ok(ClipFormat::DisplayName)
    } else if same_text(name, "CCF_NODETYPE") {
        Ok(ClipFormat::NodeType)
    } else if same_text(name, "CCF_SNAPIN_CLSID") {
        Ok(ClipFormat::SnapinClsid)
    } else {
        Err(SnapError::UnsupportedFormat)
    }
}

/// The bytes of the format on behalf of the node.
pub fn payload(f: ClipFormat, node: &Node) -> (r: Vec<u8>)
    ensures
        r@ == payload_of(f, node@),
{
    match f {
        ClipFormat::DisplayName => utf16z_le_bytes(node.display_name()),
        ClipFormat::NodeType => snapin_clsid().to_bytes(),
        ClipFormat::SnapinClsid => snapin_clsid().to_bytes(),
    }
}

impl Node {
    /// Answers a data request for the format named `format_name` into a
    /// medium of kind `medium`: the bytes to write into the locked medium,
    /// or why nothing is to be written.
    pub fn get_data_here(&self, format_name: &str, medium: TagTYMED) -> (r: Result<Vec<u8>, SnapError>)
        ensures
            match r {
                Ok(b) => transfer_of(self@, format_name@, medium) == Ok::<Seq<u8>, SnapError>(b@),
                Err(e) => transfer_of(self@, format_name@, medium) == Err::<Seq<u8>, SnapError>(e),
            },
    {
        let f = match resolve_format(format_name) {
            Ok(f) => f,
            Err(e) => return Err(e),
        };
        if medium != TagTYMED::HGlobal {
            return Err(SnapError::UnsupportedMedium);
        }
        Ok(payload(f, self))
    }
}

/// The outcome of locking the medium's memory handle, which gave `addr`.
pub fn check_lock(addr: usize) -> (r: Result<(), SnapError>)
    ensures
        r == if addr == 0 {
            Err::<(), SnapError>(SnapError::LockFailed)
        } else {
            Ok(())
        },
{
    if addr == 0 {
        Err(SnapError::LockFailed)
    } else {
        Ok(())
    }
}

/// The platform's last-error code that means no error.
pub const NO_ERROR: u32 = 0;

/// The outcome of unlocking the medium's memory handle, which left
/// `lock_count` locks on it, with `last_error` the platform's last-error
/// code read right after. A count of zero is a failure only where the
/// last-error code says so.
pub fn unlock_outcome(lock_count: i32, last_error: u32) -> (r: Result<(), SnapError>)
    ensures
        r == if lock_count == 0 && last_error != NO_ERROR {
            Err::<(), SnapError>(SnapError::UnlockFailed)
        } else {
            Ok(())
        },
{
    if lock_count == 0 && last_error != NO_ERROR {
        Err(SnapError::UnlockFailed)
    } else {
        Ok(())
    }
}

/// A request for a format that nodes do not render fails with
/// `UnsupportedFormat`, whatever the medium.
pub proof fn lemma_unknown_format_whatever_medium(n: NodeView, name: Seq<char>, medium: TagTYMED)
    requires
        name.len() > 0,
        format_of(name) is None,
    ensures
        transfer_of(n, name, medium) == Err::<Seq<u8>, SnapError>(SnapError::UnsupportedFormat),
{
}

/// A request for a format that nodes render, into a medium other than a
/// shared global memory handle, fails with `UnsupportedMedium`.
pub proof fn lemma_known_format_other_medium(n: NodeView, name: Seq<char>, medium: TagTYMED)
    requires
        format_of(name) is Some,
        medium != TagTYMED::HGlobal,
    ensures
        transfer_of(n, name, medium) == Err::<Seq<u8>, SnapError>(SnapError::UnsupportedMedium),
{
    assert(name.len() > 0) by {
        reveal_strlit("CCF_DISPLAY_NAME");
        reveal_strlit("CCF_NODETYPE");
        reveal_strlit("CCF_SNAPIN_CLSID");
    }
}

/// Reading a medium kind back from its code gives the code again.
pub proof fn lemma_tymed_code_round_trip(code: i32)
    ensures
        tymed_code(tymed_of(code)) == code,
{
}

} // verus!
