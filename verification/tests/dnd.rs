use cosmic_dnd::digits::u32_to_decimal;
use cosmic_dnd::dnd::{DragToplevel, DropTarget, MimeMismatch, OutputHandle, WorkspaceHandle};
use cosmic_dnd::mime::{MimeKind, MimeRegistry};

fn count_occurrences(haystack: &str, needle: &str) -> usize {
    let h: Vec<char> = haystack.chars().collect();
    let n: Vec<char> = needle.chars().collect();
    let mut count: usize = 0;
    if n.is_empty() || n.len() > h.len() {
        return count;
    }
    for i in 0..=(h.len() - n.len()) {
        if h[i..i + n.len()] == n[..] {
            count += 1;
        }
    }
    count
}

#[test]
fn decimal_rendering() {
    assert_eq!(u32_to_decimal(0), "0");
    assert_eq!(u32_to_decimal(7), "7");
    assert_eq!(u32_to_decimal(10), "10");
    assert_eq!(u32_to_decimal(4242), "4242");
    assert_eq!(u32_to_decimal(u32::MAX), "4294967295");
}

#[test]
fn toplevel_mime_exact_string() {
    let reg = MimeRegistry::new(4242);
    assert_eq!(reg.mime_for(MimeKind::Toplevel).as_str(), "text/x.cosmic-toplevel-id-4242");
    assert_eq!(reg.mime_for(MimeKind::Workspace).as_str(), "text/x.cosmic-workspace-id-4242");
    assert_eq!(reg.pid(), 4242);
}

#[test]
fn mime_for_identical_on_every_call() {
    let reg = MimeRegistry::new(31337);
    let first = reg.mime_for(MimeKind::Toplevel).clone();
    for _ in 0..8 {
        assert_eq!(reg.mime_for(MimeKind::Toplevel), &first);
    }
}

#[test]
fn mime_contains_pid_exactly_once() {
    let reg = MimeRegistry::new(4242);
    let tag = reg.mime_for(MimeKind::Toplevel);
    assert_eq!(count_occurrences(tag, "4242"), 1);
    let ws = reg.mime_for(MimeKind::Workspace);
    assert_eq!(count_occurrences(ws, "4242"), 1);
}

#[test]
fn serialize_known_tag_empty_bytes() {
    let reg = MimeRegistry::new(4242);
    let payload = DragToplevel {};
    let bytes = payload.as_bytes("text/x.cosmic-toplevel-id-4242", &reg);
    assert_eq!(bytes, Some(Vec::new()));
}

#[test]
fn serialize_other_tag_not_available() {
    let reg = MimeRegistry::new(4242);
    let payload = DragToplevel {};
    assert_eq!(payload.as_bytes("text/x.cosmic-workspace-id-4242", &reg), None);
    assert_eq!(payload.as_bytes("text/x.cosmic-toplevel-id-4243", &reg), None);
    assert_eq!(payload.as_bytes("", &reg), None);
}

#[test]
fn available_and_allowed_lockstep() {
    let reg = MimeRegistry::new(99);
    let payload = DragToplevel {};
    let offer = payload.available(&reg);
    let accept = DragToplevel::allowed(&reg);
    assert_eq!(offer.len(), 1);
    assert_eq!(offer, accept);
    assert_eq!(offer[0], "text/x.cosmic-toplevel-id-99");
}

#[test]
fn round_trip_known_tag() {
    let reg = MimeRegistry::new(555);
    let payload = DragToplevel {};
    let tag = reg.mime_for(MimeKind::Toplevel).clone();
    let bytes = payload.as_bytes(tag.as_str(), &reg).expect("known tag must serialize");
    let back = DragToplevel::try_from((bytes, tag), &reg);
    assert!(back.is_ok());
}

#[test]
fn deserialize_unknown_tag_fails_whatever_the_bytes() {
    let reg = MimeRegistry::new(555);
    let unknown = String::from("text/x.cosmic-toplevel-id-556");
    assert_eq!(
        DragToplevel::try_from((Vec::new(), unknown.clone()), &reg).unwrap_err(),
        MimeMismatch
    );
    assert_eq!(
        DragToplevel::try_from((vec![0u8, 255, 17, 3], unknown.clone()), &reg).unwrap_err(),
        MimeMismatch
    );
    assert_eq!(
        DragToplevel::try_from((vec![b'x'; 1024], String::from("text/plain")), &reg).unwrap_err(),
        MimeMismatch
    );
}

#[test]
fn deserialize_ignores_byte_contents() {
    let reg = MimeRegistry::new(555);
    let tag = reg.mime_for(MimeKind::Toplevel).clone();
    assert!(DragToplevel::try_from((vec![1, 2, 3], tag.clone()), &reg).is_ok());
    assert!(DragToplevel::try_from((Vec::new(), tag), &reg).is_ok());
}

#[test]
fn drag_id_sole_variant_low_bits() {
    let target = DropTarget::WorkspaceSidebarEntry(
        WorkspaceHandle { protocol_id: 7 },
        OutputHandle { protocol_id: 1 },
    );
    assert_eq!(target.drag_id(), 7);
}

#[test]
fn drag_id_ignores_output() {
    let a = DropTarget::WorkspaceSidebarEntry(
        WorkspaceHandle { protocol_id: 7 },
        OutputHandle { protocol_id: 1 },
    );
    let b = DropTarget::WorkspaceSidebarEntry(
        WorkspaceHandle { protocol_id: 7 },
        OutputHandle { protocol_id: 2 },
    );
    assert_eq!(a.drag_id(), b.drag_id());
}

#[test]
fn drag_id_differs_on_object_id() {
    let a = DropTarget::WorkspaceSidebarEntry(
        WorkspaceHandle { protocol_id: 7 },
        OutputHandle { protocol_id: 1 },
    );
    let b = DropTarget::WorkspaceSidebarEntry(
        WorkspaceHandle { protocol_id: 8 },
        OutputHandle { protocol_id: 1 },
    );
    assert_ne!(a.drag_id(), b.drag_id());
}

#[test]
fn drag_id_largest_object_id() {
    let target = DropTarget::WorkspaceSidebarEntry(
        WorkspaceHandle { protocol_id: u32::MAX },
        OutputHandle { protocol_id: 0 },
    );
    assert_eq!(target.drag_id(), u64::from(u32::MAX));
}

#[test]
fn tags_distinct_across_kinds_and_pids() {
    let a = MimeRegistry::new(1);
    let b = MimeRegistry::new(2);
    assert_ne!(
        a.mime_for(MimeKind::Toplevel),
        b.mime_for(MimeKind::Toplevel)
    );
    assert_ne!(
        a.mime_for(MimeKind::Toplevel),
        a.mime_for(MimeKind::Workspace)
    );
}
