use coop_egress::config::{CoopConfig, CustomProfile};
use coop_egress::profiles::{
    builtin_summary, cmd_images, cmd_profiles, format_custom_summary, script_summary, write_images,
    write_profile_show, write_profiles_list, BuiltinProfile, Image, ImageConfig, ImagesPlan,
    ProfileDef, ProfilesAction, ProfilesPlan,
};
use coop_egress::size::{dir_size_display, format_dir_size, total_size};

#[test]
fn builtin_summary_lists_packages_scripts_and_plugins() {
    let bp = BuiltinProfile {
        name: "demo",
        apt_packages: &["git", "curl"],
        pre_install: Some("echo pre"),
        post_install: Some("echo post"),
        marketplaces: &[],
        plugins: &["p1"],
    };
    let s = builtin_summary(&bp);
    assert!(s.contains("git, curl"), "{s}");
    assert!(s.contains("pre-install script"), "{s}");
    assert!(s.contains("post-install script"), "{s}");
    assert!(s.contains("plugins: p1"), "{s}");
    assert_eq!(s, "git, curl; pre-install script; post-install script; plugins: p1");
}

#[test]
fn builtin_summary_reports_empty_profile() {
    let bp = BuiltinProfile {
        name: "empty",
        apt_packages: &[],
        pre_install: None,
        post_install: None,
        marketplaces: &[],
        plugins: &[],
    };
    assert_eq!(builtin_summary(&bp), "(empty)");
}

#[test]
fn format_custom_summary_counts_each_section() {
    let cp = CustomProfile {
        apt_packages: vec!["a".to_string(), "b".to_string()],
        pre_install: Some("x".to_string()),
        post_install: Some("y".to_string()),
        marketplaces: vec!["m".to_string()],
        plugins: vec!["p".to_string(), "q".to_string()],
    };
    let s = format_custom_summary(&cp);
    assert!(s.contains("2 apt packages"), "{s}");
    assert!(s.contains("pre-install script"), "{s}");
    assert!(s.contains("post-install script"), "{s}");
    assert!(s.contains("1 marketplaces"), "{s}");
    assert!(s.contains("2 plugins"), "{s}");
}

fn empty_custom() -> CustomProfile {
    CustomProfile {
        apt_packages: Vec::new(),
        pre_install: None,
        post_install: None,
        marketplaces: Vec::new(),
        plugins: Vec::new(),
    }
}

#[test]
fn format_custom_summary_reports_empty_profile() {
    let cp = CustomProfile {
        apt_packages: Vec::new(),
        pre_install: None,
        post_install: None,
        marketplaces: Vec::new(),
        plugins: Vec::new(),
    };
    assert_eq!(format_custom_summary(&cp), "(empty)");
}

#[test]
fn script_summary_handles_none_empty_single_and_multiline() {
    assert_eq!(script_summary(None), "(none)");
    assert_eq!(script_summary(Some("")), "(none)");
    assert_eq!(script_summary(Some("only line")), "only line");
    let s = script_summary(Some("first\nsecond\nthird"));
    assert_eq!(s, "first ... (3 lines)");
}

#[test]
fn script_summary_follows_line_endings() {
    for script in ["a\r\nb\r\n", "\n", "one\n", "x\r", "\r\n\r\n", "a\n\nb", "\u{e9}\n\u{e9}"] {
        let count = script.lines().count();
        let first = script.lines().next().unwrap_or("");
        let expected = if count <= 1 {
            first.to_string()
        } else {
            format!("{first} ... ({count} lines)")
        };
        assert_eq!(script_summary(Some(script)), expected);
    }
}

#[test]
fn format_dir_size_renders_one_decimal_gib() {
    const GIB: u64 = 1024 * 1024 * 1024;
    assert_eq!(format_dir_size(0), "0.0 GiB");
    assert_eq!(format_dir_size(GIB), "1.0 GiB");
    assert_eq!(format_dir_size(3 * GIB / 2), "1.5 GiB");
}

#[test]
fn sizes_round_as_doubles_do() {
    let gib: u64 = 1024 * 1024 * 1024;
    let mut samples: Vec<u64> = vec![
        0,
        1,
        gib / 20,
        gib / 4,
        3 * gib / 4,
        gib * 5 / 4,
        gib * 7 / 4,
        gib / 10,
        gib - 1,
        (1 << 53) - 1,
        1 << 53,
        (1 << 53) + 1,
        (1 << 54) + 2,
        (1 << 54) + 6,
        (1 << 60) + gib / 4 + 64,
        u64::MAX - 1024,
        u64::MAX - 1023,
        u64::MAX,
    ];
    let mut seed: u64 = 12345;
    for _ in 0..2000 {
        seed = seed.wrapping_mul(6364136223846793005).wrapping_add(1442695040888963407);
        samples.push(seed);
        samples.push(seed >> 11);
        samples.push(seed >> 30);
    }
    for n in samples {
        let expected = format!("{:.1} GiB", n as f64 / (1024.0 * 1024.0 * 1024.0));
        assert_eq!(format_dir_size(n), expected, "{n}");
    }
}

#[test]
fn directory_size_is_the_sum_of_its_files() {
    let gib: u64 = 1024 * 1024 * 1024;
    assert_eq!(dir_size_display(&[]), "0.0 GiB");
    assert_eq!(dir_size_display(&[gib, gib / 2, gib / 2]), "2.0 GiB");
    assert_eq!(total_size(&[1, 2, 3]), Some(6));
    assert_eq!(total_size(&[u64::MAX, 0]), Some(u64::MAX));
    assert_eq!(total_size(&[u64::MAX, 1]), None);
}

#[test]
fn profiles_are_listed_in_columns_and_customs_are_sorted() {
    let builtin = [
        BuiltinProfile {
            name: "go",
            apt_packages: &["golang"],
            pre_install: None,
            post_install: None,
            marketplaces: &[],
            plugins: &[],
        },
        BuiltinProfile {
            name: "python",
            apt_packages: &[],
            pre_install: None,
            post_install: Some("pip"),
            marketplaces: &[],
            plugins: &[],
        },
    ];
    let mut cfg = CoopConfig::default();
    assert_eq!(
        write_profiles_list(&builtin, &cfg),
        "Builtin:\n  go     golang\n  python post-install script\n"
    );
    let mut zed = empty_custom();
    zed.plugins.push("p".to_string());
    cfg.profiles.push(("zed".to_string(), zed));
    cfg.profiles.push(("\u{e9}t\u{e9}".to_string(), empty_custom()));
    cfg.profiles.push(("Alpha-long".to_string(), empty_custom()));
    assert_eq!(
        write_profiles_list(&builtin, &cfg),
        "Builtin:\n  go         golang\n  python     post-install script\n\nCustom:\n  Alpha-long (empty)\n  zed        (1 plugins)\n  \u{e9}t\u{e9}        (empty)\n"
    );
}

fn with_plugins(n: usize) -> CustomProfile {
    let mut profile = empty_custom();
    profile.plugins = (0..n).map(|i| format!("p{i}")).collect();
    profile
}

#[test]
fn listing_does_not_depend_on_the_order_of_profiles() {
    let builtin = [BuiltinProfile {
        name: "go",
        apt_packages: &["golang"],
        pre_install: None,
        post_install: None,
        marketplaces: &[],
        plugins: &[],
    }];
    let expected = "Builtin:\n  go   golang\n\nCustom:\n  Zed  (3 plugins)\n  go   (1 plugins)\n  go-2 (2 plugins)\n";
    for order in [[0, 1, 2], [0, 2, 1], [1, 0, 2], [1, 2, 0], [2, 0, 1], [2, 1, 0]] {
        let mut cfg = CoopConfig::default();
        for at in order {
            let (name, plugins) = [("go", 1), ("go-2", 2), ("Zed", 3)][at];
            cfg.profiles.push((name.to_string(), with_plugins(plugins)));
        }
        assert_eq!(write_profiles_list(&builtin, &cfg), expected);
    }
}

#[test]
fn profile_set_again_replaces_the_one_before() {
    let mut cfg = CoopConfig::default();
    cfg.set_profile("b".to_string(), with_plugins(1));
    cfg.set_profile("a".to_string(), with_plugins(2));
    cfg.set_profile("b".to_string(), with_plugins(3));
    assert_eq!(cfg.profiles.len(), 2);
    assert_eq!(
        write_profiles_list(&[], &cfg),
        "Builtin:\n\nCustom:\n  a (2 plugins)\n  b (3 plugins)\n"
    );
}

#[test]
fn no_profiles_at_all_are_listed_as_a_heading() {
    assert_eq!(write_profiles_list(&[], &CoopConfig::default()), "Builtin:\n");
}

#[test]
fn profile_is_shown_with_its_origin() {
    let def = ProfileDef {
        apt_packages: vec!["git".to_string(), "make".to_string()],
        pre_install: None,
        post_install: Some("one\ntwo".to_string()),
        marketplaces: Vec::new(),
        plugins: vec!["p".to_string()],
    };
    let mut cfg = CoopConfig::default();
    assert_eq!(
        write_profile_show(&cfg, "demo", &def),
        "Profile: demo (builtin)\n  apt_packages: git, make\n  pre_install:  (none)\n  post_install: one ... (2 lines)\n  marketplaces: (none)\n  plugins:      p\n"
    );
    cfg.profiles.push(("demo".to_string(), empty_custom()));
    assert!(write_profile_show(&cfg, "demo", &def).starts_with("Profile: demo (custom)\n"));
}

#[test]
fn images_are_listed_in_columns() {
    assert_eq!(write_images(&[]), "No images found. Run `coop setup` to build one.\n");
    let images = [
        Image {
            name: "default".to_string(),
            config: Some(ImageConfig {
                profiles: vec!["go".to_string(), "python".to_string()],
                created: "2026-01-02".to_string(),
            }),
            size: 3 * 1024 * 1024 * 1024,
        },
        Image {
            name: "bare".to_string(),
            config: Some(ImageConfig { profiles: Vec::new(), created: "today".to_string() }),
            size: 0,
        },
        Image { name: "old".to_string(), config: None, size: 1 },
    ];
    let expected = format!(
        "{:<20} profiles: {:<30} created: {:<24} size: {}\n{:<20} profiles: {:<30} created: {:<24} size: {}\n{:<20} profiles: {:<30} created: {:<24} size: {}\n",
        "default", "go, python", "2026-01-02", "3.0 GiB", "bare", "none", "today", "0.0 GiB", "old",
        "unknown", "unknown", "0.0 GiB"
    );
    assert_eq!(write_images(&images), expected);
}

#[test]
fn images_are_destroyed_by_name() {
    assert!(matches!(cmd_images(Some("old")), ImagesPlan::Destroy("old")));
    assert!(matches!(cmd_images(None), ImagesPlan::List));
}

#[test]
fn profiles_are_listed_or_looked_up() {
    let cfg = CoopConfig::default();
    assert!(matches!(cmd_profiles(&[], &cfg, &ProfilesAction::List), ProfilesPlan::Print(text)
        if text == "Builtin:\n"));
    let show = ProfilesAction::Show { name: "go".to_string() };
    assert!(matches!(cmd_profiles(&[], &cfg, &show), ProfilesPlan::LookUp("go")));
}
