use audio_core::server_config::{default_bind, ServerConfiguration};

#[test]
fn default_bind_is_the_well_known_port() {
    assert_eq!(default_bind(), "0.0.0.0:21075");
}

#[test]
fn default_configuration_uses_the_default_bind() {
    let c = ServerConfiguration::default();
    assert_eq!(c.bind_to, "0.0.0.0:21075");
}
