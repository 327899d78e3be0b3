use rust_macios::appkit::enums::{
    NSApplicationActivationOptions, NSApplicationActivationPolicy, NSApplicationDelegateReply,
    NSApplicationTerminateReply, NSBackingStoreType, NSEventMask, NSEventType, NSPopoverBehavior,
    NSStatusItemBehavior, NSTitlebarSeparatorStyle, NSUserInterfaceLayoutDirection, NSWindowButton,
    NSWindowCollectionBehavior, NSWindowDepth, NSWindowNumberListOptions, NSWindowOcclusionState,
    NSWindowOrderingMode, NSWindowSharingType, NSWindowStyleMask, NSWindowTitleVisibility,
    NSWindowToolbarStyle,
};
use rust_macios::foundation::MachOArchitecture;
use rust_macios::natural_language::NLModelType;

#[test]
fn test_delegate_reply_values() {
    assert_eq!(NSApplicationDelegateReply::Success.value(), 0);
    assert_eq!(NSApplicationDelegateReply::Cancel.value(), 1);
    assert_eq!(NSApplicationDelegateReply::Failure.value(), 2);
}

#[test]
fn test_event_type_values() {
    assert_eq!(NSEventType::LeftMouseDown.value(), 1);
    assert_eq!(NSEventType::CursorUpdate.value(), 17);
    assert_eq!(NSEventType::ScrollWheel.value(), 22);
    assert_eq!(NSEventType::Rotate.value(), 18);
    assert_eq!(NSEventType::ChangeMode.value(), 38);
}

#[test]
fn test_event_mask_is_bit_of_event_type() {
    assert_eq!(
        NSEventMask::LeftMouseDown.value(),
        1u64 << NSEventType::LeftMouseDown.value()
    );
    assert_eq!(
        NSEventMask::ChangeMode.value(),
        1u64 << NSEventType::ChangeMode.value()
    );
    assert_eq!(NSEventMask::AnyEvent.value(), u64::MAX);
}

#[test]
fn test_window_enums() {
    assert_eq!(NSWindowStyleMask::Borderless.value(), 0);
    assert_eq!(NSWindowStyleMask::Titled.value(), 1);
    assert_eq!(NSWindowStyleMask::FullSizeContentView.value(), 1 << 15);
    assert_eq!(NSWindowToolbarStyle::UnifiedCompact.value(), 4);
    assert_eq!(NSWindowTitleVisibility::Hidden.value(), 1);
    assert_eq!(NSBackingStoreType::Buffered.value(), 2);
    assert_eq!(NSWindowCollectionBehavior::FullScreenDisallowsTiling.value(), 1 << 12);
    assert_eq!(NSWindowDepth::TwentyfourBitRgb.value(), 0x208);
    assert_eq!(NSWindowNumberListOptions::AllSpaces.value(), 1 << 4);
    assert_eq!(NSWindowSharingType::ReadWrite.value(), 2);
    assert_eq!(NSWindowOrderingMode::Below.value(), -1);
    assert_eq!(NSWindowOrderingMode::Above.value(), 1);
    assert_eq!(NSWindowOcclusionState::Visible.value(), 2);
    assert_eq!(NSWindowButton::DocumentVersionsButton.value(), 6);
    assert_eq!(NSWindowButton::FullScreenButton.value(), 7);
    assert_eq!(NSTitlebarSeparatorStyle::Shadow.value(), 3);
}

#[test]
fn test_application_enums() {
    assert_eq!(NSApplicationActivationPolicy::Prohibited.value(), 2);
    assert_eq!(NSApplicationActivationOptions::AllWindows.value(), 1);
    assert_eq!(NSApplicationActivationOptions::IgnoringOtherWindows.value(), 2);
    assert_eq!(NSApplicationTerminateReply::Later.value(), 2);
    assert_eq!(NSUserInterfaceLayoutDirection::RightToLeft.value(), 1);
    assert_eq!(NSPopoverBehavior::Semitransient.value(), 2);
    assert_eq!(NSStatusItemBehavior::RemovalAllowed.value(), 2);
    assert_eq!(NSStatusItemBehavior::TerminationOnRemoval.value(), 4);
}

#[test]
fn test_other_framework_enums() {
    assert_eq!(MachOArchitecture::ARM64.value(), 0x0100000c);
    assert_eq!(MachOArchitecture::X86_64.value(), 0x01000007);
    assert_eq!(MachOArchitecture::PPC64.value(), 0x01000012);
    assert_eq!(NLModelType::Classifier.value(), 0);
    assert_eq!(NLModelType::Sequence.value(), 1);
}
