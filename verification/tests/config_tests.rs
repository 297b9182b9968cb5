//! Constants, configuration defaults and the shutdown flag.

use niri_spacer::defaults;
use niri_spacer::native::{NativeConfig, NativeWindow, NativeWindowConfig};
use niri_spacer::signal::SignalHandler;
use niri_spacer::surface::SurfaceConfig;
use niri_spacer::wayland::{WaylandCommand, WaylandEvent};
use niri_spacer::error::NiriSpacerError;
use niri_spacer::{APP_DESCRIPTION, APP_NAME, APP_VERSION};

#[test]
fn test_constants() {
    assert_eq!(APP_NAME, "niri-spacer");
    assert!(APP_VERSION.len() > 3); // Should be a version string
    assert!(APP_DESCRIPTION.len() > 10); // Should be meaningful description

    assert_eq!(defaults::DEFAULT_WINDOW_COUNT, 9);
    assert_eq!(defaults::MIN_WINDOW_COUNT, 1);
    assert_eq!(defaults::MAX_WINDOW_COUNT, 50);
    assert_eq!(defaults::DEFAULT_SPAWN_DELAY_MS, 50);
    assert_eq!(defaults::DEFAULT_OPERATION_DELAY_MS, 25);
}

#[test]
fn test_window_count_validation() {
    // Valid counts
    assert!((defaults::MIN_WINDOW_COUNT..=defaults::MAX_WINDOW_COUNT).contains(&1));
    assert!((defaults::MIN_WINDOW_COUNT..=defaults::MAX_WINDOW_COUNT).contains(&9));
    assert!((defaults::MIN_WINDOW_COUNT..=defaults::MAX_WINDOW_COUNT).contains(&50));

    // Invalid counts
    assert!(!(defaults::MIN_WINDOW_COUNT..=defaults::MAX_WINDOW_COUNT).contains(&0));
    assert!(!(defaults::MIN_WINDOW_COUNT..=defaults::MAX_WINDOW_COUNT).contains(&51));
    assert!(!(defaults::MIN_WINDOW_COUNT..=defaults::MAX_WINDOW_COUNT).contains(&100));
}

#[test]
fn lib_test_app_metadata() {
    // Verify metadata is properly set
    assert!(APP_VERSION.split('.').count() >= 2); // Should be semantic version
    assert!(APP_DESCRIPTION.len() > 10); // Should have meaningful description

    // Test that keywords are reasonable
    let expected_keywords = ["niri", "wayland", "tiling", "window-manager", "workspace"];
    // Note: Can't directly test keywords from here, but this documents expectations
    assert!(expected_keywords.contains(&"niri"));
}

#[test]
#[allow(clippy::assertions_on_constants)]
fn test_delay_constants_are_reasonable() {
    // Delays should be reasonable (not too fast, not too slow)
    assert!(defaults::DEFAULT_SPAWN_DELAY_MS >= 10);
    assert!(defaults::DEFAULT_SPAWN_DELAY_MS <= 1000);

    assert!(defaults::DEFAULT_OPERATION_DELAY_MS >= 10);
    assert!(defaults::DEFAULT_OPERATION_DELAY_MS <= 1000);

    // Operation delay should be faster than spawn delay
    assert!(defaults::DEFAULT_OPERATION_DELAY_MS <= defaults::DEFAULT_SPAWN_DELAY_MS);
}

#[test]
fn test_default_config() {
    let config = NativeConfig::default();
    assert_eq!(config.background_color, (128, 128, 128));
    assert_eq!(config.correlation_timeout_ms, 5000);
    assert_eq!(config.app_id_pattern, "niri-spacer-native");
    assert!(!config.debug_native);
}

#[test]
fn test_config_clone() {
    let config = NativeConfig::default();
    let cloned = config.clone();
    assert_eq!(config.background_color, cloned.background_color);
    assert_eq!(config.app_id_pattern, cloned.app_id_pattern);
}

#[test]
fn test_surface_config_default() {
    let config = SurfaceConfig::default();
    assert_eq!(config.initial_width, 200);
    assert_eq!(config.initial_height, 100);
    assert_eq!(config.background_color, (128, 128, 128));
}

#[test]
fn test_surface_config_clone() {
    let config = SurfaceConfig::default();
    let cloned = config.clone();
    assert_eq!(config.initial_width, cloned.initial_width);
    assert_eq!(config.initial_height, cloned.initial_height);
    assert_eq!(config.background_color, cloned.background_color);
}

#[test]
fn test_wayland_event_debug() {
    let event = WaylandEvent::Error("test error".to_string());
    let debug_str = format!("{:?}", event);
    assert!(debug_str.contains("Error"));
    assert!(debug_str.contains("test error"));
}

#[test]
fn test_wayland_command_debug() {
    let command = WaylandCommand::CreateWindow {
        app_id: "test".to_string(),
        title: "Test Window".to_string(),
        background_color: (255, 0, 0),
    };

    let debug_str = format!("{:?}", command);
    assert!(debug_str.contains("CreateWindow"));
}

#[test]
fn test_native_window_config_default() {
    let config = NativeWindowConfig::default();
    assert_eq!(config.app_id, "niri-spacer-native");
    assert_eq!(config.title, "niri-spacer");
    assert_eq!(config.background_color, (128, 128, 128));
    assert_eq!(config.correlation_timeout_ms, 5000);
}

#[test]
fn test_native_window_debug() {
    let window = NativeWindow {
        window_id: 123,
        app_id: "test-app".to_string(),
        niri_window_id: Some(456),
        workspace_id: Some(789),
    };

    let debug_str = format!("{:?}", window);
    assert!(debug_str.contains("123"));
    assert!(debug_str.contains("test-app"));
    assert!(debug_str.contains("456"));
    assert!(debug_str.contains("789"));
}

#[test]
fn test_generate_unique_app_id_pattern() {
    // Test that the pattern is correctly formatted
    let pattern = "niri-spacer-native";
    let window_number = 5;

    // We can't test the exact output since it includes timestamp and random
    // but we can verify the format
    let timestamp = 1234567890123u128;
    let random = 42u32;
    let expected = format!("{}-{}-{}-{}", pattern, window_number, timestamp, random);

    assert!(expected.starts_with(&format!("{}-{}-", pattern, window_number)));
}

#[test]
fn test_native_window_config_clone() {
    let config = NativeWindowConfig::default();
    let cloned = config.clone();

    assert_eq!(config.app_id, cloned.app_id);
    assert_eq!(config.title, cloned.title);
    assert_eq!(config.background_color, cloned.background_color);
    assert_eq!(config.correlation_timeout_ms, cloned.correlation_timeout_ms);
}

#[test]
fn test_signal_handler_creation() {
    let handler = SignalHandler::new();
    assert!(!handler.should_shutdown());
}

#[test]
fn test_manual_shutdown_request() {
    let mut handler = SignalHandler::new();
    assert!(!handler.should_shutdown());

    handler.request_shutdown();
    assert!(handler.should_shutdown());
}

#[test]
fn test_generated_app_id_shape() {
    let id = niri_spacer::native::build_app_id("niri-spacer-native", 5, 1234567890123, 42);
    assert_eq!(id, "niri-spacer-native-5-1234567890123-42");
    let fresh = niri_spacer::native::generate_unique_app_id("niri-spacer-native", 5, 99);
    assert!(fresh.starts_with("niri-spacer-native-5-99-"));
}

#[test]
fn test_spacer_window_title_text() {
    assert_eq!(niri_spacer::native::spacer_window_title(3), "niri-spacer window 3");
}

#[test]
fn test_parse_hex_color_values() {
    assert_eq!(niri_spacer::native::parse_hex_color("808080").unwrap(), (128, 128, 128));
    assert_eq!(niri_spacer::native::parse_hex_color("#FF0000").unwrap(), (255, 0, 0));
    assert_eq!(niri_spacer::native::parse_hex_color("00ff7f").unwrap(), (0, 255, 127));
    assert!(niri_spacer::native::parse_hex_color("12345").is_err());
    assert!(niri_spacer::native::parse_hex_color("12345G").is_err());
    assert!(niri_spacer::native::parse_hex_color("").is_err());
}

#[test]
fn test_create_native_config_from_cli_values() {
    let config =
        niri_spacer::native::create_native_config(7000, true, &Some("010203".to_string()))
            .unwrap();
    assert_eq!(config.correlation_timeout_ms, 7000);
    assert!(config.debug_native);
    assert_eq!(config.background_color, (1, 2, 3));
    assert_eq!(config.app_id_pattern, "niri-spacer-native");

    let default_color = niri_spacer::native::create_native_config(5000, false, &None).unwrap();
    assert_eq!(default_color.background_color, (128, 128, 128));

    let bad = niri_spacer::native::create_native_config(5000, false, &Some("xyz".to_string()));
    assert!(bad.is_err());
}

#[test]
fn test_validate_window_count_bounds() {
    for count in 1..=50u32 {
        assert!(niri_spacer::validate_window_count(count).is_ok());
    }
    assert_eq!(
        niri_spacer::validate_window_count(0),
        Err(NiriSpacerError::InvalidWindowCount(0))
    );
    assert_eq!(
        niri_spacer::validate_window_count(51),
        Err(NiriSpacerError::InvalidWindowCount(51))
    );
    assert_eq!(
        niri_spacer::validate_window_count(100),
        Err(NiriSpacerError::InvalidWindowCount(100))
    );
}
