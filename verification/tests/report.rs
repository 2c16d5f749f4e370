use led_sim::report::log_error;

#[test]
fn report_lines_for_error_chain() {
    let messages = vec![
        "surface lost".to_string(),
        "device removed".to_string(),
        "gpu reset".to_string(),
    ];
    let lines = log_error("pixels.render", &messages);
    assert_eq!(
        lines,
        vec![
            "pixels.render() failed: surface lost".to_string(),
            "  Caused by: device removed".to_string(),
            "  Caused by: gpu reset".to_string(),
        ]
    );
}

#[test]
fn report_line_for_single_message() {
    let lines = log_error("pixels.render", &vec!["boom".to_string()]);
    assert_eq!(lines, vec!["pixels.render() failed: boom".to_string()]);
}
