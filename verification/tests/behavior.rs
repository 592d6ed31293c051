//! Scenario and failure-mode checks: the normalized shapes the
//! documents must produce, and the errors malformed documents must
//! raise.
use fomod::schema::Config as SpecConfig;
use fomod::{Config, Dependency, DependencyOperator, FormatError, Info, OrderEnum};

#[test]
fn required_files_normalize_in_order() {
    let xml = r#"
        <config>
            <moduleName>Example Mod</moduleName>
            <requiredInstallFiles>
                <file source="example.plugin"/>
                <file source="example2.plugin"/>
            </requiredInstallFiles>
        </config>
        "#;
    let config = Config::from_text(xml).unwrap();
    assert_eq!(config.module_name, "Example Mod");
    assert_eq!(config.required_install_files.len(), 2);
    assert_eq!(config.required_install_files[0].source, "example.plugin");
    assert_eq!(config.required_install_files[1].source, "example2.plugin");
}

#[test]
fn nested_dependency_tree_normalizes() {
    let xml = r#"
        <config>
            <moduleName>Example Mod</moduleName>
            <moduleDependencies operator="And">
                <fileDependency file="depend1.plugin" state="Active"/>
                <dependencies operator="Or">
                    <fileDependency file="depend2v1.plugin" state="Active"/>
                    <fileDependency file="depend2v2.plugin" state="Active"/>
                </dependencies>
            </moduleDependencies>
        </config>
        "#;
    let config = Config::from_text(xml).unwrap();
    let deps = config.module_dependencies.expect("module dependencies");
    match deps {
        DependencyOperator::And(list) => {
            assert_eq!(list.len(), 2);
            match &list[0] {
                Dependency::File(f) => {
                    assert_eq!(f.file_name, "depend1.plugin");
                }
                other => panic!("expected a file dependency, got {:?}", other),
            }
            match &list[1] {
                Dependency::Dependency(DependencyOperator::Or(inner)) => {
                    assert_eq!(inner.len(), 2);
                    assert!(matches!(inner[0], Dependency::File(_)));
                    assert!(matches!(inner[1], Dependency::File(_)));
                }
                other => panic!("expected a nested Or group, got {:?}", other),
            }
        }
        other => panic!("expected an And group, got {:?}", other),
    }
}

#[test]
fn conditional_matrix_normalizes() {
    let xml = r#"
        <config>
            <moduleName>Example Mod</moduleName>
            <conditionalFileInstalls>
                <patterns>
                    <pattern>
                        <dependencies operator="And">
                            <flagDependency flag="option_a" value="selected"/>
                            <flagDependency flag="texture_blue" value="selected"/>
                        </dependencies>
                        <files>
                            <folder source="option_a"/>
                            <folder source="texture_blue_a"/>
                        </files>
                    </pattern>
                    <pattern>
                        <dependencies operator="And">
                            <flagDependency flag="option_a" value="selected"/>
                            <flagDependency flag="texture_red" value="selected"/>
                        </dependencies>
                        <files>
                            <folder source="option_a"/>
                            <folder source="texture_red_a"/>
                        </files>
                    </pattern>
                    <pattern>
                        <dependencies operator="And">
                            <flagDependency flag="option_b" value="selected"/>
                            <flagDependency flag="texture_blue" value="selected"/>
                        </dependencies>
                        <files>
                            <folder source="option_b"/>
                            <folder source="texture_blue_b"/>
                        </files>
                    </pattern>
                    <pattern>
                        <dependencies operator="And">
                            <flagDependency flag="option_b" value="selected"/>
                            <flagDependency flag="texture_red" value="selected"/>
                        </dependencies>
                        <files>
                            <folder source="option_b"/>
                            <folder source="texture_red_b"/>
                        </files>
                    </pattern>
                </patterns>
            </conditionalFileInstalls>
        </config>
        "#;
    let config = Config::from_text(xml).unwrap();
    assert_eq!(config.conditional_file_installs.len(), 4);
    for pattern in &config.conditional_file_installs {
        match &pattern.dependencies {
            Dependency::Dependency(DependencyOperator::And(list)) => {
                assert_eq!(list.len(), 2);
                assert!(matches!(list[0], Dependency::Flag(_)));
                assert!(matches!(list[1], Dependency::Flag(_)));
            }
            other => panic!("expected an And of two flags, got {:?}", other),
        }
        assert_eq!(pattern.files.len(), 2);
    }
}

#[test]
fn missing_module_name_fails() {
    let xml = r#"
        <config>
            <requiredInstallFiles>
                <file source="example.plugin"/>
            </requiredInstallFiles>
        </config>
        "#;
    let err = Config::from_text(xml).unwrap_err();
    assert_eq!(err, FormatError::MissingElement("moduleName".to_string()));
}

#[test]
fn parsing_twice_yields_equal_values() {
    let xml = r#"
        <config>
            <moduleName>Example Mod</moduleName>
            <moduleDependencies operator="Or">
                <flagDependency flag="a" value="on"/>
                <gameDependency version="1.2.3"/>
                <fommDependency version="0.9"/>
            </moduleDependencies>
            <installSteps>
                <installStep name="Step">
                    <optionalFileGroups>
                        <group name="G" type="SelectAny">
                            <plugins>
                                <plugin name="P">
                                    <description>text</description>
                                </plugin>
                            </plugins>
                        </group>
                    </optionalFileGroups>
                </installStep>
            </installSteps>
        </config>
        "#;
    let one: SpecConfig = SpecConfig::from_text(xml).unwrap();
    let two: SpecConfig = SpecConfig::from_text(xml).unwrap();
    assert_eq!(one, two);
}

#[test]
fn absent_order_defaults_to_ascending() {
    let xml = r#"
        <config>
            <moduleName>Example Mod</moduleName>
            <installSteps>
                <installStep name="Only">
                    <optionalFileGroups>
                        <group name="G" type="SelectAll">
                            <plugins>
                                <plugin name="P">
                                    <description>d</description>
                                </plugin>
                            </plugins>
                        </group>
                    </optionalFileGroups>
                </installStep>
            </installSteps>
        </config>
        "#;
    let config = Config::from_text(xml).unwrap();
    let steps = match &config.install_steps {
        OrderEnum::Ascending(steps) => steps,
        other => panic!("expected Ascending steps, got {:?}", other),
    };
    assert_eq!(steps.len(), 1);
    assert!(matches!(
        steps[0].optional_file_groups,
        OrderEnum::Ascending(_)
    ));
}

#[test]
fn absent_sections_collapse_to_empty() {
    let xml = r#"<config><moduleName>Bare</moduleName></config>"#;
    let config = Config::from_text(xml).unwrap();
    assert_eq!(config.module_name, "Bare");
    assert!(config.module_image.is_none());
    assert!(config.module_dependencies.is_none());
    assert!(config.required_install_files.is_empty());
    assert!(matches!(&config.install_steps, OrderEnum::Ascending(v) if v.is_empty()));
    assert!(config.conditional_file_installs.is_empty());
}

#[test]
fn empty_and_absent_file_lists_agree() {
    let with_empty = r#"
        <config>
            <moduleName>M</moduleName>
            <installSteps>
                <installStep name="S">
                    <optionalFileGroups>
                        <group name="G" type="SelectAny">
                            <plugins>
                                <plugin name="P"><description>d</description><files /></plugin>
                            </plugins>
                        </group>
                    </optionalFileGroups>
                </installStep>
            </installSteps>
        </config>
        "#;
    let without = with_empty.replace("<files />", "");
    let a = Config::from_text(with_empty).unwrap();
    let b = Config::from_text(&without).unwrap();
    assert_eq!(a, b);
}

#[test]
fn bad_order_value_is_rejected() {
    let xml = r#"
        <config>
            <moduleName>M</moduleName>
            <installSteps order="Sideways">
            </installSteps>
        </config>
        "#;
    let err = Config::from_text(xml).unwrap_err();
    assert_eq!(err, FormatError::BadValue("order".to_string()));
}

#[test]
fn missing_required_attribute_is_rejected() {
    let xml = r#"
        <config>
            <moduleName>M</moduleName>
            <moduleDependencies operator="And">
                <fileDependency file="a.plugin"/>
            </moduleDependencies>
        </config>
        "#;
    let err = Config::from_text(xml).unwrap_err();
    assert_eq!(err, FormatError::MissingAttribute("state".to_string()));
}

#[test]
fn missing_operator_is_rejected() {
    let xml = r#"
        <config>
            <moduleName>M</moduleName>
            <moduleDependencies>
                <fileDependency file="a.plugin" state="Active"/>
            </moduleDependencies>
        </config>
        "#;
    let err = Config::from_text(xml).unwrap_err();
    assert_eq!(err, FormatError::MissingAttribute("operator".to_string()));
}

#[test]
fn malformed_xml_is_a_syntax_error() {
    let xml = r#"<config><moduleName>M</other></config>"#;
    let err = Config::from_text(xml).unwrap_err();
    assert_eq!(err, FormatError::Syntax);
}

#[test]
fn bad_category_id_is_rejected() {
    let xml = r#"<fomod><CategoryId>many</CategoryId></fomod>"#;
    let err = Info::from_text(xml).unwrap_err();
    assert_eq!(err, FormatError::BadValue("CategoryId".to_string()));
}

#[test]
fn category_id_tolerates_surrounding_whitespace() {
    let xml = "<fomod><CategoryId> 37 </CategoryId></fomod>";
    let info = Info::from_text(xml).unwrap();
    assert_eq!(info.category_id, Some(37));
    assert_eq!(info.name, None);
    assert_eq!(info.description, None);
}

#[test]
fn entity_references_resolve_in_text() {
    let xml = "<fomod><Name>Fish &amp; Chips &#33;</Name></fomod>";
    let info = Info::from_text(xml).unwrap();
    assert_eq!(info.name, Some("Fish & Chips !".to_string()));
}

#[test]
fn hex_character_references_resolve() {
    let xml = "<fomod><Name>&#x41;B</Name></fomod>";
    let info = fomod::Info::from_text(xml).unwrap();
    assert_eq!(info.name, Some("AB".to_string()));
}

#[test]
fn entity_references_resolve_in_attributes() {
    let xml = r#"
        <config>
            <moduleName>M</moduleName>
            <requiredInstallFiles>
                <file source="a &amp; b.plugin"/>
            </requiredInstallFiles>
        </config>
        "#;
    let config = Config::from_text(xml).unwrap();
    assert_eq!(config.required_install_files[0].source, "a & b.plugin");
}

#[test]
fn boolean_attribute_spellings() {
    let xml = r#"
        <config>
            <moduleName>M</moduleName>
            <requiredInstallFiles>
                <file source="a" installIfUsable="1"/>
                <file source="b" installIfUsable="false"/>
                <file source="c"/>
            </requiredInstallFiles>
        </config>
        "#;
    let config = Config::from_text(xml).unwrap();
    assert!(config.required_install_files[0].install_if_usable);
    assert!(!config.required_install_files[1].install_if_usable);
    assert!(!config.required_install_files[2].install_if_usable);
}

#[test]
fn priority_child_is_read_as_number() {
    let xml = r#"
        <config>
            <moduleName>M</moduleName>
            <requiredInstallFiles>
                <file source="a"><priority>-3</priority></file>
            </requiredInstallFiles>
        </config>
        "#;
    let config = Config::from_text(xml).unwrap();
    assert_eq!(config.required_install_files[0].priority, Some(-3));
}

#[test]
fn plugin_image_collapses_to_path() {
    let xml = r#"
        <config>
            <moduleName>M</moduleName>
            <installSteps>
                <installStep name="S">
                    <optionalFileGroups>
                        <group name="G" type="SelectExactlyOne">
                            <plugins>
                                <plugin name="P">
                                    <description>d</description>
                                    <image path="art/p.png"/>
                                </plugin>
                            </plugins>
                        </group>
                    </optionalFileGroups>
                </installStep>
            </installSteps>
        </config>
        "#;
    let config = Config::from_text(xml).unwrap();
    let steps = config.install_steps.vec_sorted();
    let groups = steps[0].optional_file_groups.vec_sorted();
    let plugins = match &groups[0].plugins {
        fomod::GroupType::SelectExactlyOne(oe) => oe.vec_sorted(),
        other => panic!("expected SelectExactlyOne, got {:?}", other),
    };
    assert_eq!(plugins[0].image, Some("art/p.png".to_string()));
    assert_eq!(plugins[0].description, "d");
}

#[test]
fn module_image_attributes_and_height() {
    let xml = r#"
        <config>
            <moduleName>M</moduleName>
            <moduleImage path="art/banner.png" showImage="true" showFade="0">
                <height>250</height>
            </moduleImage>
        </config>
        "#;
    let config = Config::from_text(xml).unwrap();
    let image = config.module_image.expect("module image");
    assert_eq!(image.path, Some("art/banner.png".to_string()));
    assert!(image.show_image);
    assert!(!image.show_fade);
    assert_eq!(image.height, Some(250));
}

#[test]
fn visible_dependency_is_read() {
    let xml = r#"
        <config>
            <moduleName>M</moduleName>
            <installSteps>
                <installStep name="S">
                    <visible>
                        <flagDependency flag="seen" value="yes"/>
                    </visible>
                    <optionalFileGroups>
                        <group name="G" type="SelectAny">
                            <plugins>
                                <plugin name="P"><description>d</description></plugin>
                            </plugins>
                        </group>
                    </optionalFileGroups>
                </installStep>
            </installSteps>
        </config>
        "#;
    let config = Config::from_text(xml).unwrap();
    let steps = config.install_steps.vec_sorted();
    match &steps[0].visible {
        Some(Dependency::Flag(f)) => {
            assert_eq!(f.flag, "seen");
            assert_eq!(f.value, "yes");
        }
        other => panic!("expected a flag dependency, got {:?}", other),
    }
}

#[test]
fn dependency_type_descriptor_keeps_only_patterns() {
    let xml = r#"
        <config>
            <moduleName>M</moduleName>
            <installSteps>
                <installStep name="S">
                    <optionalFileGroups>
                        <group name="G" type="SelectAny">
                            <plugins>
                                <plugin name="P">
                                    <description>d</description>
                                    <typeDescriptor>
                                        <dependencyType>
                                            <default_type name="Optional"/>
                                            <patterns>
                                                <pattern>
                                                    <dependencies operator="And">
                                                        <flagDependency flag="f" value="on"/>
                                                    </dependencies>
                                                    <type name="Required"/>
                                                </pattern>
                                            </patterns>
                                        </dependencyType>
                                    </typeDescriptor>
                                </plugin>
                            </plugins>
                        </group>
                    </optionalFileGroups>
                </installStep>
            </installSteps>
        </config>
        "#;
    let config = Config::from_text(xml).unwrap();
    let steps = config.install_steps.vec_sorted();
    let groups = steps[0].optional_file_groups.vec_sorted();
    let plugins = match &groups[0].plugins {
        fomod::GroupType::SelectAny(oe) => oe.vec_sorted(),
        other => panic!("expected SelectAny, got {:?}", other),
    };
    match &plugins[0].type_descriptor {
        Some(fomod::PluginTypeDescriptorEnum::DependencyType(patterns)) => {
            assert_eq!(patterns.len(), 1);
            assert_eq!(patterns[0].typ, fomod::PluginTypeEnum::Required);
            assert!(matches!(
                patterns[0].dependencies,
                Dependency::Dependency(DependencyOperator::And(_))
            ));
        }
        other => panic!("expected a dependency-decided type, got {:?}", other),
    }
}

#[test]
fn version_dependencies_are_read() {
    let xml = r#"
        <config>
            <moduleName>M</moduleName>
            <moduleDependencies operator="Or">
                <gameDependency version="1.2.3"/>
                <fommDependency version="0.9"/>
            </moduleDependencies>
        </config>
        "#;
    let config = Config::from_text(xml).unwrap();
    match config.module_dependencies.expect("dependencies") {
        DependencyOperator::Or(list) => {
            assert_eq!(list.len(), 2);
            match &list[0] {
                Dependency::Game(v) => assert_eq!(v.version, "1.2.3"),
                other => panic!("expected a game dependency, got {:?}", other),
            }
            match &list[1] {
                Dependency::Fomm(v) => assert_eq!(v.version, "0.9"),
                other => panic!("expected a fomm dependency, got {:?}", other),
            }
        }
        other => panic!("expected an Or group, got {:?}", other),
    }
}

#[test]
fn unknown_dependency_tag_is_rejected() {
    let xml = r#"
        <config>
            <moduleName>M</moduleName>
            <moduleDependencies operator="And">
                <weatherDependency kind="rain"/>
            </moduleDependencies>
        </config>
        "#;
    let err = Config::from_text(xml).unwrap_err();
    assert_eq!(err, FormatError::BadValue("weatherDependency".to_string()));
}
