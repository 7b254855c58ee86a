use installer::catalog::{apps_by_category, apps_by_tag, catalog, essential_apps, Category};

#[test]
fn catalog_is_not_empty() {
    assert!(!catalog().is_empty());
    assert!(catalog().len() >= 50, "Expected at least 50 apps in catalog");
}

#[test]
fn all_categories_have_apps() {
    for cat in Category::all() {
        let apps = apps_by_category(cat);
        assert!(!apps.is_empty(), "Category {:?} has no apps", cat);
    }
}

#[test]
fn essential_apps_exist() {
    let essentials = essential_apps();
    assert!(
        essentials.len() >= 5,
        "Expected at least 5 essential apps, got {}",
        essentials.len()
    );
}

#[test]
fn all_apps_have_unique_ids() {
    let mut ids = std::collections::HashSet::new();
    for app in catalog() {
        assert!(ids.insert(app.id), "Duplicate app ID: {}", app.id);
    }
}

#[test]
fn all_apps_have_names_and_descriptions() {
    for app in catalog() {
        assert!(!app.name.is_empty(), "App {} has empty name", app.id);
        assert!(
            !app.description.is_empty(),
            "App {} has empty description",
            app.id
        );
        assert!(!app.url.is_empty(), "App {} has empty URL", app.id);
    }
}

#[test]
fn install_methods_produce_commands() {
    for app in catalog() {
        let cmd = app.install_method.command();
        assert!(!cmd.is_empty(), "App {} has empty install command", app.id);
    }
}

#[test]
fn apps_by_tag_works() {
    let rust_apps = apps_by_tag("rust");
    assert!(!rust_apps.is_empty(), "No apps tagged 'rust'");

    for app in &rust_apps {
        assert!(
            app.tags.contains(&"rust"),
            "App {} returned by tag 'rust' but doesn't have that tag",
            app.id
        );
    }
}

#[test]
fn category_metadata() {
    for cat in Category::all() {
        assert!(!cat.name().is_empty());
        assert!(!cat.icon().is_empty());
    }
}
