use turbocuak_daemon::{
    global_config_build, package_config_build, Error, GlobalConfig, PackageConfig, TaskConfig,
};

#[test]
fn it_parses_valid_config() -> Result<(), Error> {
    let data: String = String::from(
        r#"{
  "packageDirectories": ["package"]
}"#,
    );

    let result: GlobalConfig = global_config_build(data)?;
    let expected_result: GlobalConfig = GlobalConfig::new(vec![String::from("package")]);

    assert_eq!(result, expected_result);

    Ok(())
}

#[test]
fn it_parses_valid_config_with_additional_properties() -> Result<(), Error> {
    let data: String = String::from(
        r#"{
  "foo": "bar",
  "packageDirectories": ["package"]
}"#,
    );

    let result: GlobalConfig = global_config_build(data)?;
    let expected_result: GlobalConfig = GlobalConfig::new(vec![String::from("package")]);

    assert_eq!(result, expected_result);

    Ok(())
}

#[test]
fn it_does_not_parse_config_with_invalid_properties() -> Result<(), Error> {
    let data: String = String::from(
        r#"{
  "foo": "bar",
  "packageDirectories": [3]
}"#,
    );

    let result = global_config_build(data);

    assert!(result.is_err());

    Ok(())
}

#[test]
fn build_it_parses_valid_config() -> Result<(), Error> {
    let data: String = String::from(
        r#"{
  "name": "name",
  "root": "root",
  "tasks": [
    {
      "depends_on": [],
      "inputFiles": [],
      "name": "taskName",
      "options": { "foo": "bar" }
    }
  ]
}"#,
    );

    let result: PackageConfig = package_config_build(data)?;
    let expected_result: PackageConfig = PackageConfig::new(
        String::from("name"),
        String::from("root"),
        vec![TaskConfig::new(
            vec![],
            vec![],
            String::from("taskName"),
            String::from("{ \"foo\": \"bar\" }"),
        )],
    );

    assert_eq!(result, expected_result);

    Ok(())
}
