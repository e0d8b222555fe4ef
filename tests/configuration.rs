use c_to_wasm_compiler::configuration::{Debugging, Filename, Profile, TOOLCHAIN};
use c_to_wasm_compiler::configuration::Debugging::Disabled;
use c_to_wasm_compiler::configuration::Profile::O0;
use c_to_wasm_compiler::configuration_builder::ConfigurationBuilder;

#[test]
fn configuration_settings() {
    let config = ConfigurationBuilder::init()
        .debugging(Disabled)
        .profile(O0)
        .source("hi there!".into())
        .build();

    assert_eq!(config.debugging(), &Disabled);
    assert_eq!(config.profile(), &O0);
    assert_eq!(config.source(), "hi there!");
}

#[test]
fn setters_in_every_order_give_the_same_configuration() {
    let source = "int f(void) { return 1; }";
    let configs = vec![
        ConfigurationBuilder::init().profile(Profile::O2).debugging(Debugging::Enabled).source(source.into()).build(),
        ConfigurationBuilder::init().profile(Profile::O2).source(source.into()).debugging(Debugging::Enabled).build(),
        ConfigurationBuilder::init().debugging(Debugging::Enabled).profile(Profile::O2).source(source.into()).build(),
        ConfigurationBuilder::init().debugging(Debugging::Enabled).source(source.into()).profile(Profile::O2).build(),
        ConfigurationBuilder::init().source(source.into()).profile(Profile::O2).debugging(Debugging::Enabled).build(),
        ConfigurationBuilder::init().source(source.into()).debugging(Debugging::Enabled).profile(Profile::O2).build(),
    ];
    for config in &configs {
        assert_eq!(config.profile(), &Profile::O2);
        assert_eq!(config.debugging(), &Debugging::Enabled);
        assert_eq!(config.source(), source);
    }
}

#[test]
fn filename_may_be_set_in_any_state() {
    let config = ConfigurationBuilder::init()
        .filename(Filename::Configured("fac.c".into()))
        .profile(Profile::O1)
        .debugging(Debugging::Disabled)
        .source(String::new())
        .build();
    assert_eq!(config.profile(), &Profile::O1);
    assert_eq!(config.source(), "");
}

#[test]
fn command_without_debug_flag() {
    let config = ConfigurationBuilder::init()
        .profile(Profile::O3)
        .debugging(Debugging::Disabled)
        .source("x".into())
        .build();
    let inv = config.as_command("/tmp/in.c", "/tmp/out.wasm");
    assert_eq!(inv.program, "emcc");
    assert_eq!(TOOLCHAIN, "emcc");
    assert_eq!(
        inv.args,
        vec!["/tmp/in.c", "--no-entry", "-O3", "-s", "STANDALONE_WASM=1", "-o", "/tmp/out.wasm"]
    );
}

#[test]
fn command_with_debug_flag_for_each_profile() {
    let cases = [
        (Profile::O0, "-O0"),
        (Profile::O1, "-O1"),
        (Profile::O2, "-O2"),
        (Profile::O3, "-O3"),
    ];
    for (profile, flag) in cases {
        assert_eq!(profile.flag(), flag);
        let config = ConfigurationBuilder::init()
            .source("x".into())
            .debugging(Debugging::Enabled)
            .profile(profile)
            .build();
        let inv = config.as_command("a.c", "b.wasm");
        assert_eq!(
            inv.args,
            vec!["a.c", "--no-entry", flag, "-g", "-s", "STANDALONE_WASM=1", "-o", "b.wasm"]
        );
    }
}
