//! Tests of configuration loading: the config-string grammar, the section
//! tables, the root directory, and the error taxonomy.

use psplit::config::{Config, Error, OperationMode};
use psplit::parser::Parser;

#[test]
fn mode_codes() {
    assert_eq!(OperationMode::StringRead.code(), "rt");
    assert_eq!(OperationMode::StringWrite.code(), "wt");
    assert_eq!(OperationMode::BytesRead.code(), "rb");
    assert_eq!(OperationMode::BytesWrite.code(), "wb");
}

#[test]
fn default_configs() {
    let r = Config::default_read();
    assert!(r.enabled);
    assert_eq!(r.mode, Some(OperationMode::StringRead));
    let w = Config::default_write();
    assert!(w.enabled);
    assert_eq!(w.mode, Some(OperationMode::StringWrite));
}

#[test]
fn split_configuration_enabled_and_mode() {
    let c = Parser::get_split_configuration("1,wt").expect("should parse");
    assert!(c.enabled);
    assert_eq!(c.mode, Some(OperationMode::StringWrite));

    let c = Parser::get_split_configuration("0,rt").expect("should parse");
    assert!(!c.enabled);
    assert_eq!(c.mode, Some(OperationMode::StringRead));

    let c = Parser::get_split_configuration("1").expect("should parse");
    assert!(c.enabled);
    assert_eq!(c.mode, None);

    let c = Parser::get_split_configuration("yes,rb").expect("should parse");
    assert!(!c.enabled, "only the exact string 1 enables");
    assert_eq!(c.mode, Some(OperationMode::BytesRead));
}

#[test]
fn split_configuration_mode_case_insensitive() {
    let c = Parser::get_split_configuration("1,WT").expect("should parse");
    assert_eq!(c.mode, Some(OperationMode::StringWrite));
    let c = Parser::get_split_configuration("1,Rb").expect("should parse");
    assert_eq!(c.mode, Some(OperationMode::BytesRead));
    let c = Parser::get_split_configuration("1,wB").expect("should parse");
    assert_eq!(c.mode, Some(OperationMode::BytesWrite));
}

#[test]
fn split_configuration_extra_fields_ignored() {
    let c = Parser::get_split_configuration("1,wt,whatever").expect("should parse");
    assert!(c.enabled);
    assert_eq!(c.mode, Some(OperationMode::StringWrite));
}

#[test]
fn split_configuration_unknown_mode() {
    let r = Parser::get_split_configuration("1,wf");
    let message_matches = match r {
        Err(Error::Configuration(s)) => s == "Unknown operation type 'wf'",
        _ => false,
    };
    assert!(message_matches);

    let r = Parser::get_split_configuration("1,");
    let message_matches = match r {
        Err(Error::Configuration(s)) => s == "Unknown operation type ''",
        _ => false,
    };
    assert!(message_matches);
}

#[test]
fn read_and_write_config_empty_defaults() {
    let r = Parser::get_read_config("").expect("should parse");
    assert!(r.enabled);
    assert_eq!(r.mode, Some(OperationMode::StringRead));
    let w = Parser::get_write_config("").expect("should parse");
    assert!(w.enabled);
    assert_eq!(w.mode, Some(OperationMode::StringWrite));
}

#[test]
fn load_from_str_single_input() {
    let content = "
[DEFAULT]
root=/tmp
[PIPES]
cvAnalogsMapperExt=
[cvAnalogsMapperExt]
cvAnalogsMapperExtFuelApp=
";
    let config = Parser::load_from_str(content).expect("Should load configuration ");

    assert_eq!(1, config.len());

    let first_config = config.get(0).unwrap();

    assert_eq!(1, first_config.outputs.len());
    assert!(first_config.configuration.enabled, "Should be enabled");

    assert_eq!(1, first_config.enabled_outputs());
    assert_eq!(first_config.pipe, "/tmp/cvAnalogsMapperExt");
    assert_eq!(first_config.outputs[0].pipe, "/tmp/cvAnalogsMapperExtFuelApp");
}

#[test]
fn needs_pipes_section() {
    let content = "
[DEFAULT]
root=/tmp
[cvAnalogsMapperExt]
cvAnalogsMapperExtFuelApp=
";
    let config = Parser::load_from_str(content);
    assert_eq!(config.is_err(), true);
    let error_matches = match config {
        Err(e) => match e {
            Error::Configuration(s) => {
                s.as_str() == "configuration must contain a 'PIPES' section"
            }
            _ => false,
        },
        Ok(_) => false,
    };
    assert_eq!(error_matches, true);
}

#[test]
fn valid_pipe_configuration() {
    let content = "
[DEFAULT]
root=/tmp
[PIPES]
cvAnalogsMapperExt=
[cvAnalogsMapperExt]
cvAnalogsMapperExtFuelApp=1,wf
";
    let config = Parser::load_from_str(content);
    assert_eq!(config.is_err(), true);

    let error_matches = match config {
        Err(e) => match e {
            Error::Configuration(s) => s.as_str() == "Unknown operation type 'wf'",
            _ => false,
        },
        Ok(_) => false,
    };

    assert_eq!(error_matches, true);
}

#[test]
fn root_directory_defaults_when_absent() {
    let content = "
[PIPES]
a=
[a]
b=
";
    let config = Parser::load_from_str(content).expect("should load");
    assert_eq!(config[0].pipe, "/tmp/cvnpipes/a");
    assert_eq!(config[0].outputs[0].pipe, "/tmp/cvnpipes/b");
}

#[test]
fn one_input_per_pipes_entry() {
    let content = "
[DEFAULT]
root=/var/run/pipes
[PIPES]
alpha=
beta=1,rt
[alpha]
one=
two=1,wt
[beta]
three=0,wt
";
    let config = Parser::load_from_str(content).expect("should load");
    assert_eq!(2, config.len());
    assert_eq!(config[0].pipe, "/var/run/pipes/alpha");
    assert_eq!(2, config[0].outputs.len());
    assert_eq!(config[0].outputs[1].pipe, "/var/run/pipes/two");
    assert_eq!(config[1].pipe, "/var/run/pipes/beta");
    assert_eq!(1, config[1].outputs.len());
    assert!(!config[1].outputs[0].configuration.enabled);
    assert_eq!(0, config[1].enabled_outputs());
}

#[test]
fn input_without_section_has_no_outputs() {
    let content = "
[PIPES]
lonely=
";
    let config = Parser::load_from_str(content).expect("should load");
    assert_eq!(1, config.len());
    assert_eq!(0, config[0].outputs.len());
    assert_eq!(0, config[0].enabled_outputs());
}

#[test]
fn unreadable_ini_is_an_ini_error() {
    let config = Parser::load_from_str("[unclosed\n");
    let is_ini_error = matches!(config, Err(Error::Ini(_)));
    assert!(is_ini_error);
}

#[test]
fn missing_file_is_an_ini_error() {
    let config = Parser::load_from_file("/nonexistent/psplit/config_splitter.ini");
    let is_ini_error = matches!(config, Err(Error::Ini(_)));
    assert!(is_ini_error);
}

#[test]
fn root_value_from_default_section() {
    let content = "
[DEFAULT]
root=/srv/pipes
other=ignored
[PIPES]
a=
[a]
b=1,wt
";
    let config = Parser::load_from_str(content).expect("should load");
    assert_eq!(config[0].pipe, "/srv/pipes/a");
    assert_eq!(config[0].outputs[0].pipe, "/srv/pipes/b");
    assert!(config[0].outputs[0].configuration.enabled);
    assert_eq!(config[0].outputs[0].configuration.mode, Some(OperationMode::StringWrite));
}
