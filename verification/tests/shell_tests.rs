use mibpf_vm::config::{BinaryFileLayout, TargetVM};
use mibpf_vm::shell::{handle_command, layout_from_name, parse_u8, CommandAction};

fn args(parts: &[&str]) -> Vec<String> {
    parts.iter().map(|p| p.to_string()).collect()
}

#[test]
fn command_dispatches_with_known_layout() {
    let action = handle_command(&args(&["bpf-execute", "rBPF", "2", "RawObjectFile"]));
    match action {
        CommandAction::Send {
            request,
            layout_fallback,
        } => {
            assert_eq!(request.vm_target, TargetVM::Rbpf);
            assert_eq!(request.suit_slot, 2);
            assert_eq!(request.binary_layout, BinaryFileLayout::RawObjectFile);
            assert_eq!(request.allowed_helpers, vec![1, 2, 3]);
            assert!(!layout_fallback);
        }
        CommandAction::Usage => panic!("expected the command to dispatch"),
    }
}

#[test]
fn unknown_layout_falls_back_and_still_dispatches() {
    let action = handle_command(&args(&["bpf-execute", "rBPF", "2", "Garbage"]));
    match action {
        CommandAction::Send {
            request,
            layout_fallback,
        } => {
            assert_eq!(
                request.binary_layout,
                BinaryFileLayout::FunctionRelocationMetadata
            );
            assert!(layout_fallback);
        }
        CommandAction::Usage => panic!("expected the command to dispatch despite the layout"),
    }
}

#[test]
fn femtocontainer_target_is_accepted() {
    let action = handle_command(&args(&["bpf-execute", "FemtoContainer", "1", "OnlyTextSection"]));
    match action {
        CommandAction::Send { request, .. } => {
            assert_eq!(request.vm_target, TargetVM::FemtoContainer);
            assert_eq!(request.binary_layout, BinaryFileLayout::OnlyTextSection);
        }
        CommandAction::Usage => panic!("expected the command to dispatch"),
    }
}

#[test]
fn malformed_commands_ask_for_usage() {
    assert!(matches!(
        handle_command(&args(&["bpf-execute", "rBPF", "2"])),
        CommandAction::Usage
    ));
    assert!(matches!(
        handle_command(&args(&["bpf-execute", "rBPF", "abc", "RawObjectFile"])),
        CommandAction::Usage
    ));
    assert!(matches!(
        handle_command(&args(&["bpf-execute", "rBPF", "300", "RawObjectFile"])),
        CommandAction::Usage
    ));
    assert!(matches!(
        handle_command(&args(&["bpf-execute", "SomethingElse", "2", "RawObjectFile"])),
        CommandAction::Usage
    ));
}

#[test]
fn slot_numbers_parse_as_bytes() {
    assert_eq!(parse_u8("0"), Some(0));
    assert_eq!(parse_u8("2"), Some(2));
    assert_eq!(parse_u8("255"), Some(255));
    assert_eq!(parse_u8("007"), Some(7));
    assert_eq!(parse_u8("+7"), Some(7));
    assert_eq!(parse_u8("+255"), Some(255));
    assert_eq!(parse_u8("+"), None);
    assert_eq!(parse_u8("++1"), None);
    assert_eq!(parse_u8("+256"), None);
    assert_eq!(parse_u8("256"), None);
    assert_eq!(parse_u8("9999"), None);
    assert_eq!(parse_u8(""), None);
    assert_eq!(parse_u8("1a"), None);
    assert_eq!(parse_u8("-1"), None);
}

#[test]
fn layout_names_resolve() {
    assert_eq!(
        layout_from_name(&"OnlyTextSection".to_string()),
        Some(BinaryFileLayout::OnlyTextSection)
    );
    assert_eq!(
        layout_from_name(&"RawObjectFile".to_string()),
        Some(BinaryFileLayout::RawObjectFile)
    );
    assert_eq!(
        layout_from_name(&"FunctionRelocationMetadata".to_string()),
        Some(BinaryFileLayout::FunctionRelocationMetadata)
    );
    assert_eq!(layout_from_name(&"rawobjectfile".to_string()), None);
}
