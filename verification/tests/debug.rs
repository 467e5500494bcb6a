use ash::vk;
use vulkan_ctx::debug::{
    format_report_line, my_debug_callback, severity_color, DebugCtx, MessageColor, CONTINUE,
    SEVERITY_ERROR, SEVERITY_INFO, SEVERITY_VERBOSE, SEVERITY_WARNING, TYPE_GENERAL,
    TYPE_PERFORMANCE, TYPE_VALIDATION,
};

#[test]
fn severity_and_category_bits_are_those_of_the_api() {
    assert_eq!(SEVERITY_VERBOSE, vk::DebugUtilsMessageSeverityFlagsEXT::VERBOSE.as_raw());
    assert_eq!(SEVERITY_INFO, vk::DebugUtilsMessageSeverityFlagsEXT::INFO.as_raw());
    assert_eq!(SEVERITY_WARNING, vk::DebugUtilsMessageSeverityFlagsEXT::WARNING.as_raw());
    assert_eq!(SEVERITY_ERROR, vk::DebugUtilsMessageSeverityFlagsEXT::ERROR.as_raw());
    assert_eq!(TYPE_GENERAL, vk::DebugUtilsMessageTypeFlagsEXT::GENERAL.as_raw());
    assert_eq!(TYPE_VALIDATION, vk::DebugUtilsMessageTypeFlagsEXT::VALIDATION.as_raw());
    assert_eq!(TYPE_PERFORMANCE, vk::DebugUtilsMessageTypeFlagsEXT::PERFORMANCE.as_raw());
    assert_eq!(CONTINUE, vk::FALSE);
}

#[test]
fn messenger_delivers_every_severity_and_three_categories() {
    let settings = DebugCtx::new();
    assert_eq!(settings.message_severity, 0x1111);
    assert_eq!(settings.message_type, 0x7);
    let severity = vk::DebugUtilsMessageSeverityFlagsEXT::INFO
        | vk::DebugUtilsMessageSeverityFlagsEXT::WARNING
        | vk::DebugUtilsMessageSeverityFlagsEXT::ERROR
        | vk::DebugUtilsMessageSeverityFlagsEXT::VERBOSE;
    let types = vk::DebugUtilsMessageTypeFlagsEXT::GENERAL
        | vk::DebugUtilsMessageTypeFlagsEXT::VALIDATION
        | vk::DebugUtilsMessageTypeFlagsEXT::PERFORMANCE;
    assert_eq!(settings.message_severity, severity.as_raw());
    assert_eq!(settings.message_type, types.as_raw());
}

#[test]
fn each_severity_has_its_color() {
    assert_eq!(severity_color(SEVERITY_WARNING), Some(MessageColor::Yellow));
    assert_eq!(severity_color(SEVERITY_INFO), Some(MessageColor::Cyan));
    assert_eq!(severity_color(SEVERITY_ERROR), Some(MessageColor::Red));
    assert_eq!(severity_color(SEVERITY_VERBOSE), Some(MessageColor::Blue));
}

#[test]
fn other_flag_words_have_no_color() {
    assert_eq!(severity_color(0), None);
    assert_eq!(severity_color(SEVERITY_WARNING | SEVERITY_ERROR), None);
    assert_eq!(severity_color(0x2), None);
    assert_eq!(severity_color(u32::MAX), None);
}

#[test]
fn report_line_has_brackets_colon_and_message() {
    assert_eq!(format_report_line("WARNING", "VALIDATION", "\"hello\""), "[WARNING][VALIDATION]: \"hello\"");
    assert_eq!(format_report_line("", "", ""), "[][]: ");
    assert_eq!(format_report_line("a", "b", "c"), "[a][b]: c");
}

#[test]
fn callback_reports_a_warning_in_yellow() {
    let report = my_debug_callback(SEVERITY_WARNING, TYPE_VALIDATION, "\"vkCreateDevice: bad\"");
    assert_eq!(report.line, "[WARNING][VALIDATION]: \"vkCreateDevice: bad\"");
    assert_eq!(report.color, Some(MessageColor::Yellow));
    assert_eq!(report.signal, vk::FALSE);
}

#[test]
fn callback_names_each_severity_and_category() {
    assert_eq!(my_debug_callback(SEVERITY_VERBOSE, TYPE_GENERAL, "m").line, "[VERBOSE][GENERAL]: m");
    assert_eq!(my_debug_callback(SEVERITY_INFO, TYPE_PERFORMANCE, "m").line, "[INFO][PERFORMANCE]: m");
    assert_eq!(my_debug_callback(SEVERITY_ERROR, TYPE_VALIDATION, "m").line, "[ERROR][VALIDATION]: m");
    assert_eq!(my_debug_callback(SEVERITY_ERROR, TYPE_VALIDATION, "m").color, Some(MessageColor::Red));
    assert_eq!(my_debug_callback(SEVERITY_INFO, TYPE_GENERAL, "m").color, Some(MessageColor::Cyan));
    assert_eq!(my_debug_callback(SEVERITY_VERBOSE, TYPE_GENERAL, "m").color, Some(MessageColor::Blue));
}

#[test]
fn callback_joins_combined_flags() {
    let report = my_debug_callback(
        SEVERITY_WARNING | SEVERITY_ERROR,
        TYPE_GENERAL | TYPE_VALIDATION | TYPE_PERFORMANCE,
        "both",
    );
    assert_eq!(report.line, "[WARNING | ERROR][GENERAL | VALIDATION | PERFORMANCE]: both");
    assert_eq!(report.color, None);
    assert_eq!(report.signal, CONTINUE);
}

#[test]
fn callback_never_asks_to_abort() {
    for severity in [0, 1, 0x10, 0x100, 0x1000, 0x1111, 0x2, u32::MAX] {
        for types in [0, 1, 2, 4, 7, 0x80] {
            assert_eq!(my_debug_callback(severity, types, "x").signal, 0);
        }
    }
}

#[test]
fn callback_line_matches_the_debug_form_of_the_flags() {
    let severity = vk::DebugUtilsMessageSeverityFlagsEXT::from_raw(0x1010);
    let types = vk::DebugUtilsMessageTypeFlagsEXT::from_raw(0x5);
    let expected = format!("[{:?}][{:?}]: {}", severity, types, "text");
    assert_eq!(my_debug_callback(0x1010, 0x5, "text").line, expected);
    assert_eq!(expected, "[INFO | ERROR][GENERAL | PERFORMANCE]: text");
}
