//! Drag-and-drop identity: drag surfaces, the zero-byte toplevel drag
//! payload with its MIME negotiation, and the packed 64-bit key for drop
//! targets.
//!
//! The payload codec is a type-tag-only protocol: identity is carried by
//! the process-scoped MIME tag alone, the byte body is always empty and is
//! never inspected on the receiving side.

use vstd::prelude::*;
use vstd::string::StringExecFns;
use crate::mime::{MimeKind, MimeRegistry, mime_spec};

verus! {

/// A non-owning reference to a live compositor workspace object, identified
/// by its 32-bit protocol object id.
#[derive(Clone, Copy, Debug, PartialEq, Eq, Structural)]
pub struct WorkspaceHandle {
    pub protocol_id: u32,
}

/// A non-owning reference to a live compositor toplevel (application
/// window), identified by its 32-bit protocol object id.
#[derive(Clone, Copy, Debug, PartialEq, Eq, Structural)]
pub struct ToplevelHandle {
    pub protocol_id: u32,
}

/// A non-owning reference to a compositor output (monitor), identified by
/// its 32-bit protocol object id.
#[derive(Clone, Copy, Debug, PartialEq, Eq, Structural)]
pub struct OutputHandle {
    pub protocol_id: u32,
}

/// The compositor object a drag gesture originates from, together with the
/// output the drag started on.
#[derive(Clone, Copy, Debug)]
pub enum DragSurface {
    Workspace { handle: WorkspaceHandle, output: OutputHandle },
    Toplevel { handle: ToplevelHandle, output: OutputHandle },
}

/// The error for a serialize or deserialize call made with a MIME type the
/// payload does not recognize: a benign negotiation miss, never fatal.
#[derive(Clone, Copy, Debug, PartialEq, Eq, Structural)]
pub struct MimeMismatch;

/// The drag payload for a toplevel: a zero-field marker. The byte body
/// carries no information; identity correlation happens out of band.
#[derive(Clone, Copy, Debug)]
pub struct DragToplevel {}

/// What serializing a toplevel payload under `mime` yields in the process
/// with id `pid`: the empty byte sequence for the process's own toplevel
/// tag, nothing for any other MIME type.
pub open spec fn serialize_spec(mime: Seq<char>, pid: u32) -> Option<Seq<u8>> {
    if mime == mime_spec(MimeKind::Toplevel, pid) {
        Some(Seq::<u8>::empty())
    } else {
        None
    }
}

/// What deserializing `bytes` under `mime` yields in the process with id
/// `pid`: an empty payload for the process's own toplevel tag, a mismatch
/// error for any other MIME type. The bytes are never inspected.
pub open spec fn deserialize_spec(bytes: Seq<u8>, mime: Seq<char>, pid: u32) -> Result<
    DragToplevel,
    MimeMismatch,
> {
    if mime == mime_spec(MimeKind::Toplevel, pid) {
        Ok(DragToplevel {})
    } else {
        Err(MimeMismatch)
    }
}

impl DragToplevel {
    /// The ordered list of MIME types this payload can be exported as:
    /// exactly one entry, the process-scoped toplevel tag.
    pub fn available(&self, registry: &MimeRegistry) -> (r: Vec<String>)
        ensures
            r@.len() == 1,
            r@[0]@ == mime_spec(MimeKind::Toplevel, registry.spec_pid()),
    {
        let mut v: Vec<String> = Vec::new();
        v.push(registry.mime_for(MimeKind::Toplevel).clone());
        v
    }

    /// Serializes the payload for a negotiated MIME type: the empty byte
    /// body for the process's own toplevel tag, `None` (not available, not
    /// an error) for any other type.
    pub fn as_bytes(&self, mime_type: &str, registry: &MimeRegistry) -> (r: Option<Vec<u8>>)
        ensures
            match r {
                Some(bytes) => serialize_spec(mime_type@, registry.spec_pid()) == Some(bytes@),
                None => serialize_spec(mime_type@, registry.spec_pid()) is None,
            },
    {
        let m = String::from_str(mime_type);
        if m == *registry.mime_for(MimeKind::Toplevel) {
            Some(Vec::new())
        } else {
            None
        }
    }

    /// The MIME types the receiving side is willing to accept: the same
    /// single-entry list as the offer side, so negotiation stays in
    /// lock-step.
    pub fn allowed(registry: &MimeRegistry) -> (r: Vec<String>)
        ensures
            r@.len() == 1,
            r@[0]@ == mime_spec(MimeKind::Toplevel, registry.spec_pid()),
    {
        let mut v: Vec<String> = Vec::new();
        v.push(registry.mime_for(MimeKind::Toplevel).clone());
        v
    }

    /// Deserializes a received drag offer: succeeds with an empty payload
    /// for the process's own toplevel tag, fails with `MimeMismatch` for
    /// any other MIME type, whatever the bytes hold.
    pub fn try_from(value: (Vec<u8>, String), registry: &MimeRegistry) -> (r: Result<
        DragToplevel,
        MimeMismatch,
    >)
        ensures
            r == deserialize_spec(value.0@, value.1@, registry.spec_pid()),
    {
        let (_bytes, mime_type) = value;
        if mime_type == *registry.mime_for(MimeKind::Toplevel) {
            Ok(DragToplevel {})
        } else {
            Err(MimeMismatch)
        }
    }
}

/// Round-trip law: for the known toplevel tag, serialization succeeds with
/// the empty byte body, and that body deserializes back to a payload under
/// the same tag.
pub proof fn lemma_serialize_deserialize_roundtrip(mime: Seq<char>, pid: u32)
    requires
        mime == mime_spec(MimeKind::Toplevel, pid),
    ensures
        serialize_spec(mime, pid) == Some(Seq::<u8>::empty()),
        deserialize_spec(Seq::<u8>::empty(), mime, pid) == Result::<
            DragToplevel,
            MimeMismatch,
        >::Ok(DragToplevel {}),
{
}

/// Any MIME type other than the process's own toplevel tag is rejected
/// with `MimeMismatch`, whatever the byte contents — empty or arbitrary
/// binary garbage alike.
pub proof fn lemma_deserialize_unknown_mime_fails(bytes: Seq<u8>, mime: Seq<char>, pid: u32)
    requires
        mime != mime_spec(MimeKind::Toplevel, pid),
    ensures
        deserialize_spec(bytes, mime, pid) == Result::<DragToplevel, MimeMismatch>::Err(
            MimeMismatch,
        ),
{
}

/// A drop zone a widget can be tagged with. Each variant carries a fixed,
/// stable discriminant (assigned in declaration order, never reassigned)
/// so the numeric key encoding is deterministic across builds.
#[derive(Clone, Copy, Debug, PartialEq, Eq, Structural)]
pub enum DropTarget {
    WorkspaceSidebarEntry(WorkspaceHandle, OutputHandle),
}

impl DropTarget {
    /// The fixed discriminant of the value's variant.
    pub open spec fn discriminant(&self) -> u8 {
        match self {
            DropTarget::WorkspaceSidebarEntry(_, _) => 0,
        }
    }

    /// The 32-bit protocol object id the key is derived from. The output
    /// component is intentionally ignored: a workspace may span several
    /// outputs, and all of its sidebar entries key alike.
    pub open spec fn object_id(&self) -> u32 {
        match self {
            DropTarget::WorkspaceSidebarEntry(workspace, _) => workspace.protocol_id,
        }
    }

    /// The packed 64-bit key: the discriminant in the high 32 bits, the
    /// protocol object id in the low 32 bits.
    pub open spec fn drag_id_spec(&self) -> u64 {
        ((self.discriminant() as u64) << 32) | (self.object_id() as u64)
    }

    /// Encode as a u64 so the widget toolkit can associate a drop
    /// destination area with a widget.
    pub fn drag_id(&self) -> (r: u64)
        ensures
            r == self.drag_id_spec(),
    {
        match self {
            DropTarget::WorkspaceSidebarEntry(workspace, _output) => {
                let discriminant: u8 = 0;
                ((discriminant as u64) << 32) | (workspace.protocol_id as u64)
            },
        }
    }
}

/// Packing a discriminant and a 32-bit id into a u64 is injective: two
/// packed keys are equal exactly when both components are.
proof fn lemma_pack_injective(d1: u8, i1: u32, d2: u8, i2: u32)
    ensures
        ((((d1 as u64) << 32) | (i1 as u64)) == (((d2 as u64) << 32) | (i2 as u64))) <==> (d1 == d2
            && i1 == i2),
{
    assert(((((d1 as u64) << 32) | (i1 as u64)) == (((d2 as u64) << 32) | (i2 as u64))) <==> (d1
        == d2 && i1 == i2)) by (bit_vector);
}

/// The drop-target key is injective over (discriminant, protocol object
/// id) pairs: two targets key alike exactly when variant and object id
/// agree — in particular, targets differing only in output share a key.
pub proof fn lemma_drag_id_injective(a: &DropTarget, b: &DropTarget)
    ensures
        (a.drag_id_spec() == b.drag_id_spec()) <==> (a.discriminant() == b.discriminant()
            && a.object_id() == b.object_id()),
{
    lemma_pack_injective(a.discriminant(), a.object_id(), b.discriminant(), b.object_id());
}

/// The key ignores the output: two sidebar entries for the same workspace
/// on different outputs share the same key (documented aliasing).
pub proof fn lemma_drag_id_ignores_output(w: WorkspaceHandle, o1: OutputHandle, o2: OutputHandle)
    ensures
        DropTarget::WorkspaceSidebarEntry(w, o1).drag_id_spec()
            == DropTarget::WorkspaceSidebarEntry(w, o2).drag_id_spec(),
{
}

} // verus!
