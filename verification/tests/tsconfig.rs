use call_checker::tsconfig::{equals_ignoring_case, ConfigValue, Module, Tsconfig};

#[test]
fn node16_needs_explicit_extensions() {
    assert!(Module::Node16.has_explicit_file_extension());
    assert!(Module::NodeNext.has_explicit_file_extension());
    assert!(!Module::Es2022.has_explicit_file_extension());
}

#[test]
fn module_names_parse_in_any_case() {
    assert_eq!(Module::parse("NodeNext"), Ok(Module::NodeNext));
    assert_eq!(Module::parse("es2022"), Ok(Module::Es2022));
    assert_eq!(Module::parse("COMMONJS"), Ok(Module::CommonJs));
    assert_eq!(
        Module::parse("ES5"),
        Err("Invalid value 'es5' for compilerOptions.module".to_string())
    );
}

#[test]
fn tsconfig_reads_the_module_option() {
    let root = ConfigValue::Object(vec![(
        "compilerOptions".to_string(),
        ConfigValue::Object(vec![("module".to_string(), ConfigValue::String("UMD".to_string()))]),
    )]);
    assert_eq!(Tsconfig::new(root).module, Some(Module::Umd));
    assert!(Tsconfig::try_new(ConfigValue::Other).is_none());
}

#[test]
fn every_module_name_parses_back_to_its_module() {
    let modules = [
        Module::Node16,
        Module::NodeNext,
        Module::Es2015,
        Module::Es2020,
        Module::Es2022,
        Module::EsNext,
        Module::CommonJs,
        Module::System,
        Module::Amd,
        Module::Umd,
    ];
    let names =
        ["node16", "nodenext", "es2015", "es2020", "es2022", "esnext", "commonjs", "system", "amd", "umd"];
    for (module, name) in modules.iter().zip(names) {
        assert_eq!(module.name(), name);
        assert_eq!(Module::parse(module.name()), Ok(*module));
        assert_eq!(Module::parse(&module.name().to_uppercase()), Ok(*module));
        assert_eq!(Module::from_name(&module.name().to_uppercase()), Some(*module));
    }
}

#[test]
fn unknown_module_names_are_an_error_that_names_the_option() {
    for name in ["", "node", "es20222", "CommonJS ", "ÅMD"] {
        let lowered = name.to_lowercase();
        assert_eq!(
            Module::parse(name),
            Err(format!("Invalid value '{}' for compilerOptions.module", lowered))
        );
        assert_eq!(Module::from_name(name), None);
    }
    assert_eq!(
        Module::parse_lowered("Es5", "shown"),
        Err("Invalid value 'shown' for compilerOptions.module".to_string())
    );
    assert_eq!(Module::parse_lowered("AMD", "shown"), Ok(Module::Amd));
}

#[test]
fn case_is_ignored_for_the_letters_a_to_z_only() {
    assert!(equals_ignoring_case("NodeNext", "nodenext"));
    assert!(equals_ignoring_case("", ""));
    assert!(!equals_ignoring_case("node16", "node1"));
    assert!(!equals_ignoring_case("ÅMD", "åmd"));
    assert!(equals_ignoring_case("åMD", "åmd"));
    assert!(!equals_ignoring_case("[", "{"));
    assert!(!equals_ignoring_case("@", "`"));
}

#[test]
fn tsconfig_without_a_module_has_none() {
    let object = |members: Vec<(&str, ConfigValue)>| {
        ConfigValue::Object(members.into_iter().map(|(name, value)| (name.to_string(), value)).collect())
    };
    assert_eq!(Tsconfig::new(object(vec![])).module, None);
    assert_eq!(Tsconfig::new(object(vec![("compilerOptions", ConfigValue::Other)])).module, None);
    assert_eq!(
        Tsconfig::new(object(vec![("compilerOptions", ConfigValue::String("umd".into()))])).module,
        None
    );
    assert_eq!(
        Tsconfig::new(object(vec![("compilerOptions", object(vec![("module", ConfigValue::Other)]))]))
            .module,
        None
    );
    assert_eq!(
        Tsconfig::new(object(vec![(
            "compilerOptions",
            object(vec![("module", ConfigValue::String("es3".into()))])
        )]))
        .module,
        None
    );
    assert_eq!(
        Tsconfig::new(object(vec![
            ("files", ConfigValue::Other),
            (
                "compilerOptions",
                object(vec![
                    ("strict", ConfigValue::Other),
                    ("module", ConfigValue::String("Node16".into())),
                    ("module", ConfigValue::String("umd".into())),
                ])
            ),
        ]))
        .module,
        Some(Module::Node16)
    );
    assert_eq!(Tsconfig::default().module, None);
    let found = Tsconfig::try_new(object(vec![])).map(|config| config.module);
    assert_eq!(found, Some(None));
    assert!(Tsconfig::try_new(ConfigValue::String("{}".into())).is_none());
}

#[test]
fn set_module_opt_keeps_the_module_without_a_new_one() {
    let mut config = Tsconfig::default();
    config.set_module_opt(None);
    assert_eq!(config.module, None);
    config.set_module_opt(Some(Module::System)).set_module_opt(None);
    assert_eq!(config.module, Some(Module::System));
    config.set_module_opt(Some(Module::Amd));
    assert_eq!(config.module, Some(Module::Amd));
    let member = ConfigValue::Object(vec![("a".to_string(), ConfigValue::Other)]);
    assert!(matches!(member.member("a"), Some(ConfigValue::Other)));
    assert!(member.member("b").is_none());
    assert!(ConfigValue::Other.member("a").is_none());
}
