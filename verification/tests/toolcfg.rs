use cvmodtool::commands::buildcmd::{uat_args, Build};
use cvmodtool::commands::create::{name_check, sort_dedup, Create};
use cvmodtool::commands::install::Install;
use cvmodtool::commands::package::{
    path_same_separator, should_include, upak_args, upak_filelist_content, Package,
};
use cvmodtool::commands::update::Update;
use cvmodtool::commands::{Opts, SubCommand};
use cvmodtool::config::{ModConfig, ToolConfig};
use cvmodtool::resources::modules::{apply_project_name, find_module, missing_dependencies, replace_all, Module};
use cvmodtool::resources::profiles::{Profile, Profiles};
use cvmodtool::UpdateError;

#[test]
fn modconfig_paths_are_joined_with_backslashes() {
    let config = ModConfig::new("MyMod", "C:\\work\\MyMod");
    assert_eq!(config.project().as_str(), "MyMod");
    assert_eq!(config.pakname().as_str(), "Z_MyMod_P");
    assert_eq!(config.packagedir().as_str(), "Package");
    assert_eq!(config.wd().as_str(), "C:\\work\\MyMod");
    assert_eq!(
        config.pakfile(),
        "C:\\work\\MyMod\\Package\\Z_MyMod_P.pak"
    );
    assert_eq!(config.uproject(), "C:\\work\\MyMod\\MyMod.uproject");
    assert!(config.includes().cook().is_empty());
    assert!(config.includes().copy().is_empty());
    assert!(config.credits().is_empty());
}

#[test]
fn modconfig_updates_its_lists() {
    let mut config = ModConfig::new("MyMod", "wd");
    config.includes_mut().set_cook(vec!["A".to_string()]);
    config.includes_mut().set_copy(vec!["B".to_string()]);
    config.set_credits(vec!["author".to_string()]);
    assert_eq!(config.includes().cook().as_slice(), ["A".to_string()]);
    assert_eq!(config.includes().copy().as_slice(), ["B".to_string()]);
    assert_eq!(config.credits().as_slice(), ["author".to_string()]);
}

#[test]
fn toolconfig_derives_the_engine_tool_paths() {
    let config = ToolConfig::new("C:\\UE_4.18".to_string(), "C:\\mods".to_string());
    assert_eq!(
        config.uat(),
        "C:\\UE_4.18\\Engine\\Build\\BatchFiles\\RunUAT.bat"
    );
    assert_eq!(
        config.upak(),
        "C:\\UE_4.18\\Engine\\Binaries\\Win64\\UnrealPak.exe"
    );
    assert_eq!(config.moddir().as_str(), "C:\\mods");
}

#[test]
fn profiles_find_the_last_entry_and_miss_unknown_names() {
    let mut profiles = Profiles::new();
    profiles.add(Profile {
        name: "default".to_string(),
        modules: vec!["base".to_string()],
    });
    profiles.add(Profile {
        name: "default".to_string(),
        modules: vec!["override".to_string()],
    });
    assert_eq!(
        profiles.get("default").unwrap().as_slice(),
        ["override".to_string()]
    );
    assert!(profiles.get("missing").is_none());
}

#[test]
fn name_check_accepts_short_single_component_names() {
    assert!(name_check("MyMod"));
    assert!(name_check("Mod123"));
    assert!(!name_check(""));
    assert!(!name_check(".."));
    assert!(!name_check("My Mod"));
    assert!(!name_check("My\tMod"));
    assert!(!name_check("dir\\name"));
    assert!(!name_check("dir/name"));
    assert!(!name_check("a23456789012345678901"));
    assert!(name_check("a2345678901234567890"));
}

#[test]
fn uat_arguments_cook_the_given_project() {
    let args = uat_args("C:\\work\\MyMod\\MyMod.uproject");
    assert_eq!(args.len(), 12);
    assert_eq!(args[0], "BuildCookRun");
    assert_eq!(args[10], "-utf8output");
    assert_eq!(args[11], "-project=\"C:\\work\\MyMod\\MyMod.uproject\"");
}

#[test]
fn upak_arguments_create_the_pak_from_the_filelist() {
    let filelist = upak_filelist_content("C:\\pkg\\Z_MyMod_P");
    assert_eq!(filelist, "\"C:\\pkg\\Z_MyMod_P\\*.*\" \"..\\..\\..\\*.*\" ");
    let args = upak_args("C:\\pkg\\Z_MyMod_P.pak", "C:\\pkg\\filelist.txt", true);
    assert_eq!(args.len(), 3);
    assert_eq!(args[0], "C:\\pkg\\Z_MyMod_P.pak");
    assert_eq!(args[1], "-Create=C:\\pkg\\filelist.txt");
    assert_eq!(args[2], "-compress");
    let args = upak_args("a.pak", "f.txt", false);
    assert_eq!(args.len(), 2);
}

#[test]
fn include_filter_normalizes_separators() {
    assert_eq!(path_same_separator("a/b/c"), "a\\b\\c");
    assert_eq!(path_same_separator("a\\b"), "a\\b");
    assert_eq!(path_same_separator(""), "");
    let includes = vec!["Maps".to_string(), "Data/Tables".to_string()];
    assert!(should_include("Maps\\Level1.umap", &includes));
    assert!(should_include("Data\\Tables\\items.uasset", &includes));
    assert!(should_include("Data/Tables/items.uasset", &includes));
    assert!(!should_include("Audio\\boom.uasset", &includes));
}

#[test]
fn module_exclusion_and_modify_rules() {
    let module = Module::new(
        "base".to_string(),
        "C:\\res\\modules\\base".to_string(),
        vec!["core".to_string()],
        vec!["Config\\DefaultEngine.ini".to_string()],
        vec!["Docs".to_string()],
        vec!["Content".to_string()],
        vec!["author".to_string()],
    );
    assert_eq!(module.name(), "base");
    assert_eq!(module.dependencies().as_slice(), ["core".to_string()]);
    assert_eq!(module.pakinclude().as_slice(), ["Content".to_string()]);
    assert_eq!(module.credits().as_slice(), ["author".to_string()]);
    assert_eq!(
        module.modifyfiles().as_slice(),
        ["Config\\DefaultEngine.ini".to_string()]
    );
    assert_eq!(module.excludefiles().as_slice(), ["Docs".to_string()]);

    // The module's own configuration file never installs.
    assert!(module.is_excluded("module.toml", "module.toml"));
    // Everything under an excluded directory stays out.
    assert!(module.is_excluded("Docs\\readme.md", "readme.md"));
    assert!(module.is_excluded("Docs", "Docs"));
    // A name that only shares the prefix text is not excluded.
    assert!(!module.is_excluded("Docs2\\readme.md", "readme.md"));
    assert!(!module.is_excluded("Content\\thing.uasset", "thing.uasset"));

    assert!(module.needs_modify("Config\\DefaultEngine.ini"));
    assert!(!module.needs_modify("Config\\Other.ini"));
}

#[test]
fn sort_dedup_orders_and_uniques_the_lists() {
    let items = vec![
        "Maps".to_string(),
        "Audio".to_string(),
        "Maps".to_string(),
        "Data".to_string(),
        "Audio".to_string(),
    ];
    let sorted = sort_dedup(&items);
    assert_eq!(
        sorted.as_slice(),
        [
            "Audio".to_string(),
            "Data".to_string(),
            "Maps".to_string()
        ]
    );
    let empty: Vec<String> = vec![];
    assert!(sort_dedup(&empty).is_empty());
}

#[test]
fn update_command_targets_default_to_both() {
    assert_eq!(Update::new(false, false).targets(), (true, true));
    assert_eq!(Update::new(true, false).targets(), (true, false));
    assert_eq!(Update::new(false, true).targets(), (false, true));
    assert_eq!(Update::new(true, true).targets(), (true, true));
    let setup = Update::setup();
    assert!(!setup.executable);
    assert!(setup.resources);
}

#[test]
fn command_options_carry_their_fields() {
    let create = Create::new(
        "MyMod".to_string(),
        "default".to_string(),
        Some(vec!["extra".to_string()]),
    );
    assert_eq!(create.name(), "MyMod");
    assert_eq!(create.profile(), "default");
    assert_eq!(
        create.modules().as_ref().unwrap().as_slice(),
        ["extra".to_string()]
    );

    let install = Install::new(None, "cvmod.toml".to_string());
    assert!(install.pak().is_none());
    assert_eq!(install.config().as_str(), "cvmod.toml");

    let package = Package::new("cvmod.toml".to_string(), true, false);
    assert_eq!(package.config().as_str(), "cvmod.toml");
    assert!(package.no_copy());
    assert!(!package.no_compress());

    let build = Build::new("cvmod.toml".to_string());
    assert_eq!(build.config().as_str(), "cvmod.toml");

    let opts = Opts::new(true, SubCommand::Build(Build::new("c".to_string())));
    assert!(opts.verbose());
    assert!(matches!(opts.subcmd(), SubCommand::Build(_)));
}

#[test]
fn error_messages_name_their_cause() {
    assert_eq!(
        UpdateError::Transport("timed out".to_string()).message(),
        "No response: timed out"
    );
    assert_eq!(
        UpdateError::Api("rate limited".to_string()).message(),
        "API error: rate limited"
    );
    assert_eq!(UpdateError::NotFetched.message(), "No fetched content found!");
    assert_eq!(UpdateError::Verification.message(), "Verification failed");
    assert_eq!(UpdateError::UnknownFormat.message(), "Unknown archive format!");
    assert_eq!(
        UpdateError::NotFound("tool.exe".to_string()).message(),
        "Asset not found: tool.exe"
    );
}

#[test]
fn replace_all_rewrites_every_occurrence() {
    assert_eq!(replace_all("aXbXc", "X", "--"), "a--b--c");
    assert_eq!(replace_all("aaaa", "aa", "b"), "bb");
    assert_eq!(replace_all("nothing here", "X", "Y"), "nothing here");
    assert_eq!(replace_all("abc", "", "Y"), "abc");
    assert_eq!(
        apply_project_name("PROJECTNAME.uproject", "MyMod"),
        "MyMod.uproject"
    );
    assert_eq!(
        apply_project_name("Source/PROJECTNAME/PROJECTNAME.Build.cs", "MyMod"),
        "Source/MyMod/MyMod.Build.cs"
    );
}

#[test]
fn find_module_returns_the_first_match() {
    let make = |name: &str| {
        Module::new(
            name.to_string(),
            "p".to_string(),
            vec![],
            vec![],
            vec![],
            vec![],
            vec![],
        )
    };
    let modules = vec![make("base"), make("extra"), make("base")];
    assert_eq!(find_module(&modules, "extra"), Some(1));
    assert_eq!(find_module(&modules, "base"), Some(0));
    assert_eq!(find_module(&modules, "missing"), None);
}

#[test]
fn missing_dependencies_are_the_unsatisfied_ones() {
    let make = |name: &str, deps: Vec<String>| {
        Module::new(
            name.to_string(),
            "p".to_string(),
            deps,
            vec![],
            vec![],
            vec![],
            vec![],
        )
    };
    let selected = vec![
        make("base", vec![]),
        make("extra", vec!["base".to_string(), "sound".to_string()]),
    ];
    let missing = missing_dependencies(&selected[1], &selected);
    assert_eq!(missing.as_slice(), ["sound".to_string()]);
    assert!(missing_dependencies(&selected[0], &selected).is_empty());
}
