use call_boundary::{translate, HostFailure, MapErr, Status};

#[test]
fn translation_puts_context_before_root_cause() {
    let failure = anyhow::Error::msg("io error").context("loading config");
    let host = translate(failure);
    assert_eq!(host.status, Status::GenericFailure);
    assert!(host.reason.starts_with("loading config\n\nCaused by:\n    io error"));
    let context_at = host.reason.find("loading config").unwrap();
    let cause_at = host.reason.find("io error").unwrap();
    assert_eq!(context_at, 0);
    assert!(context_at + "loading config".len() <= cause_at);
}

#[test]
fn translation_of_a_bare_root_cause_opens_with_it() {
    let host = translate(anyhow::Error::msg("io error"));
    assert_eq!(host.status, Status::GenericFailure);
    assert!(host.reason.starts_with("io error"));
    assert!(!host.reason.starts_with("io error\n\nCaused by:"));
}

#[test]
fn translation_lists_every_layer_in_order() {
    let failure = anyhow::Error::msg("disk unplugged")
        .context("reading file")
        .context("loading config");
    let host = translate(failure);
    assert!(host.reason.starts_with(
        "loading config\n\nCaused by:\n    0: reading file\n    1: disk unplugged"
    ));
}

#[test]
fn translation_keeps_a_context_of_several_lines() {
    let failure = anyhow::Error::msg("io error").context("loading\nconfig");
    let host = translate(failure);
    assert!(host.reason.starts_with("loading\nconfig\n\nCaused by:\n    io error"));
}

#[test]
fn convert_err_keeps_a_success() {
    let result: Result<u32, anyhow::Error> = Ok(5);
    let converted: Result<u32, HostFailure> = result.convert_err();
    assert_eq!(converted.unwrap(), 5);
}

#[test]
fn convert_err_translates_a_failure() {
    let result: Result<u32, anyhow::Error> =
        Err(anyhow::Error::msg("io error").context("loading config"));
    let host = result.convert_err().unwrap_err();
    assert_eq!(host.status, Status::GenericFailure);
    assert!(host.reason.starts_with("loading config\n\nCaused by:\n    io error"));
}

#[test]
fn convert_err_agrees_with_translate() {
    let by_trait = Err::<(), anyhow::Error>(anyhow::Error::msg("a").context("b"))
        .convert_err()
        .unwrap_err();
    let by_function = translate(anyhow::Error::msg("a").context("b"));
    assert_eq!(by_trait.status, by_function.status);
    assert!(by_trait.reason.starts_with("b\n\nCaused by:\n    a"));
    assert!(by_function.reason.starts_with("b\n\nCaused by:\n    a"));
}
