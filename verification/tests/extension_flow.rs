use bpf_extension::{
    AttachParameters, Extension, ExtensionError, LinkHandle, LinkId, LinkRequest, LinkTable,
    LoadRequest, ProgramError, ProgramHandle, Resolved, Syscall, TypeGraphHandle,
};

fn found(fd: i32, type_id: u32) -> Resolved {
    Resolved { handle: TypeGraphHandle { fd }, type_id }
}

fn loaded_extension() -> Extension {
    let mut ext = Extension::new();
    let request = ext.load(ProgramHandle { fd: 3 }, Ok(found(4, 9))).unwrap();
    assert_eq!(
        request,
        LoadRequest { program_type: 28, attach_prog_fd: 3, attach_btf_obj_fd: 4, attach_btf_id: 9 }
    );
    ext.load_finished(Ok(ProgramHandle { fd: 8 })).unwrap();
    ext
}

#[test]
fn load_request_carries_the_program_type_of_extensions() {
    let mut ext = Extension::new();
    let request = ext.load(ProgramHandle { fd: 3 }, Ok(found(4, 9))).unwrap();
    assert_eq!(Extension::PROGRAM_TYPE, 28);
    assert_eq!(request.program_type, Extension::PROGRAM_TYPE);
}

#[test]
fn new_extension_is_not_loaded() {
    let ext = Extension::new();
    assert!(ext.is_not_loaded());
    assert!(!ext.is_loaded());
    assert!(ext.attach_parameters().is_none());
    assert_eq!(ext.links().len(), 0);
}

#[test]
fn attach_before_load_is_not_loaded() {
    let ext = Extension::new();
    assert!(matches!(ext.attach(), Err(ProgramError::NotLoaded)));
}

#[test]
fn attach_during_load_is_not_loaded() {
    let mut ext = Extension::new();
    ext.load(ProgramHandle { fd: 3 }, Ok(found(4, 9))).unwrap();
    assert!(!ext.is_loaded());
    assert!(!ext.is_not_loaded());
    assert!(matches!(ext.attach(), Err(ProgramError::NotLoaded)));
}

#[test]
fn load_without_type_info_fails_with_no_btf() {
    let mut ext = Extension::new();
    let refused = ext
        .load(
            ProgramHandle { fd: 3 },
            Err(ProgramError::ExtensionError(ExtensionError::NoBTF)),
        )
        .unwrap_err();
    assert!(matches!(refused.error, ProgramError::ExtensionError(ExtensionError::NoBTF)));
    assert_eq!(refused.release_program, Some(ProgramHandle { fd: 3 }));
    assert_eq!(refused.release_type_graph, None);
    assert!(ext.is_not_loaded());
    assert!(ext.attach_parameters().is_none());
    assert!(matches!(ext.attach(), Err(ProgramError::NotLoaded)));
}

#[test]
fn load_records_the_target() {
    let ext = loaded_extension();
    assert!(ext.is_loaded());
    assert_eq!(
        ext.attach_parameters(),
        Some(&AttachParameters {
            target_program: ProgramHandle { fd: 3 },
            attach_btf_object: TypeGraphHandle { fd: 4 },
            attach_btf_id: 9,
        })
    );
}

#[test]
fn load_refused_by_the_kernel_keeps_nothing() {
    let mut ext = Extension::new();
    ext.load(ProgramHandle { fd: 3 }, Ok(found(4, 9))).unwrap();
    let refused = ext.load_finished(Err(22)).unwrap_err();
    assert!(matches!(
        refused.error,
        ProgramError::SyscallError { call: Syscall::ProgLoad, io_error: 22 }
    ));
    assert_eq!(refused.release_program, Some(ProgramHandle { fd: 3 }));
    assert_eq!(refused.release_type_graph, Some(TypeGraphHandle { fd: 4 }));
    assert!(ext.is_not_loaded());
    assert!(ext.attach_parameters().is_none());
    let again = ext.load(ProgramHandle { fd: 30 }, Ok(found(40, 90))).unwrap();
    assert_eq!(again.attach_prog_fd, 30);
    assert_eq!(again.attach_btf_id, 90);
}

#[test]
fn second_load_is_refused() {
    let mut ext = loaded_extension();
    let refused = ext.load(ProgramHandle { fd: 50 }, Ok(found(51, 1))).unwrap_err();
    assert!(matches!(refused.error, ProgramError::AlreadyLoaded));
    assert_eq!(refused.release_program, Some(ProgramHandle { fd: 50 }));
    assert_eq!(refused.release_type_graph, Some(TypeGraphHandle { fd: 51 }));
    assert_eq!(ext.attach_parameters().map(|p| p.attach_btf_id), Some(9));
}

#[test]
fn load_answer_without_a_load_is_refused() {
    let mut ext = Extension::new();
    let refused = ext.load_finished(Ok(ProgramHandle { fd: 8 })).unwrap_err();
    assert!(matches!(refused.error, ProgramError::NotLoaded));
    assert_eq!(refused.release_program, Some(ProgramHandle { fd: 8 }));
    assert!(ext.is_not_loaded());
    let mut loaded = loaded_extension();
    let refused = loaded.load_finished(Err(1)).unwrap_err();
    assert!(matches!(refused.error, ProgramError::AlreadyLoaded));
    assert_eq!(refused.release_program, None);
    assert!(loaded.is_loaded());
}

#[test]
fn attach_targets_what_load_resolved() {
    let ext = loaded_extension();
    assert_eq!(
        ext.attach().unwrap(),
        LinkRequest { program_fd: 8, target_fd: 3, attach_type: 0, flags: 0, target_btf_id: 9 }
    );
}

#[test]
fn attach_twice_gives_two_live_links() {
    let mut ext = loaded_extension();
    let first_request = ext.attach().unwrap();
    let first = ext.link_created(Ok(LinkHandle { fd: 20 })).unwrap();
    let second_request = ext.attach().unwrap();
    let second = ext.link_created(Ok(LinkHandle { fd: 21 })).unwrap();
    assert_eq!(first_request, second_request);
    assert_ne!(first, second);
    assert!(ext.links().contains(first));
    assert!(ext.links().contains(second));
    assert_eq!(ext.links().get(first), Some(20));
    assert_eq!(ext.links().get(second), Some(21));
    assert_eq!(ext.links().len(), 2);
}

#[test]
fn equal_links_still_get_two_ids() {
    let mut ext = loaded_extension();
    let first = ext.link_created(Ok(LinkHandle { fd: 20 })).unwrap();
    let second = ext.link_created(Ok(LinkHandle { fd: 20 })).unwrap();
    assert_eq!(first, LinkId { index: 0 });
    assert_eq!(second, LinkId { index: 1 });
}

#[test]
fn refused_link_is_reported_and_changes_nothing() {
    let mut ext = loaded_extension();
    let error = ext.link_created(Err(22)).unwrap_err();
    match error {
        ProgramError::SyscallError { call, io_error } => {
            assert_eq!(call.name(), "bpf_link_create");
            assert_eq!(io_error, 22);
        }
        other => panic!("unexpected error: {:?}", other),
    }
    assert_eq!(ext.links().len(), 0);
    assert!(ext.is_loaded());
}

#[test]
fn attach_to_program_uses_the_new_target() {
    let ext = loaded_extension();
    let plan = ext.attach_to_program(&ProgramHandle { fd: 60 }, Ok(found(61, 17))).unwrap();
    assert_eq!(
        plan.request,
        LinkRequest { program_fd: 8, target_fd: 60, attach_type: 0, flags: 0, target_btf_id: 17 }
    );
    assert_eq!(plan.close, TypeGraphHandle { fd: 61 });
}

#[test]
fn attach_to_program_leaves_the_load_target() {
    let mut ext = loaded_extension();
    let before = ext.attach().unwrap();
    ext.attach_to_program(&ProgramHandle { fd: 60 }, Ok(found(61, 17))).unwrap();
    let id = ext.link_created(Ok(LinkHandle { fd: 70 })).unwrap();
    assert!(ext.links().contains(id));
    assert_eq!(ext.attach().unwrap(), before);
    assert_eq!(ext.attach_parameters().map(|p| p.target_program.fd), Some(3));
    assert_eq!(ext.attach_parameters().map(|p| p.attach_btf_object.fd), Some(4));
    assert_eq!(ext.attach_parameters().map(|p| p.attach_btf_id), Some(9));
}

#[test]
fn attach_to_program_before_load_is_not_loaded() {
    let ext = Extension::new();
    let refused = ext.attach_to_program(&ProgramHandle { fd: 60 }, Ok(found(61, 17))).unwrap_err();
    assert!(matches!(refused.error, ProgramError::NotLoaded));
    assert_eq!(refused.close, Some(TypeGraphHandle { fd: 61 }));
}

#[test]
fn attach_to_program_reports_a_failed_resolution_first() {
    let ext = Extension::new();
    let refused = ext
        .attach_to_program(
            &ProgramHandle { fd: 60 },
            Err(ProgramError::ExtensionError(ExtensionError::NoBTF)),
        )
        .unwrap_err();
    assert!(matches!(refused.error, ProgramError::ExtensionError(ExtensionError::NoBTF)));
    assert_eq!(refused.close, None);
}

#[test]
fn detach_twice_is_an_error() {
    let mut ext = loaded_extension();
    let id = ext.link_created(Ok(LinkHandle { fd: 20 })).unwrap();
    assert_eq!(ext.detach(id).unwrap(), LinkHandle { fd: 20 });
    assert!(!ext.links().contains(id));
    assert!(matches!(ext.detach(id), Err(ProgramError::NotAttached)));
    assert!(matches!(ext.detach(LinkId { index: 99 }), Err(ProgramError::NotAttached)));
    assert!(ext.is_loaded());
}

#[test]
fn ids_are_not_given_out_again() {
    let mut ext = loaded_extension();
    let first = ext.link_created(Ok(LinkHandle { fd: 20 })).unwrap();
    ext.detach(first).unwrap();
    let second = ext.link_created(Ok(LinkHandle { fd: 20 })).unwrap();
    assert_ne!(first, second);
    assert!(!ext.links().contains(first));
    assert!(ext.links().contains(second));
    assert_eq!(ext.links().len(), 1);
}

#[test]
fn link_table_on_its_own() {
    let mut table = LinkTable::new();
    assert_eq!(table.len(), 0);
    assert!(!table.contains(LinkId { index: 0 }));
    assert_eq!(table.get(LinkId { index: 0 }), None);
    let a = table.insert(LinkHandle { fd: 1 });
    let b = table.insert(LinkHandle { fd: 2 });
    let c = table.insert(LinkHandle { fd: 3 });
    assert_eq!((a.index, b.index, c.index), (0, 1, 2));
    assert_eq!(table.remove(b).unwrap(), LinkHandle { fd: 2 });
    assert_eq!(table.len(), 2);
    assert_eq!(table.get(b), None);
    assert_eq!(table.get(a), Some(1));
    assert_eq!(table.get(c), Some(3));
    assert!(matches!(table.remove(b), Err(ProgramError::NotAttached)));
}
