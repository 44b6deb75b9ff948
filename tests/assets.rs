use swagger_ui::SwaggerUiAssets;

fn asset_list() -> [&'static str; 8] {
    [
        "favicon-16x16.png",
        "favicon-32x32.png",
        "index.html",
        "oauth2-redirect.html",
        "swagger-ui.css",
        "swagger-ui.js",
        "swagger-ui-bundle.js",
        "swagger-ui-standalone-preset.js",
    ]
}

fn bundle() -> SwaggerUiAssets {
    let entries: Vec<(String, Vec<u8>)> = asset_list()
        .iter()
        .map(|name| (name.to_string(), format!("contents of {}", name).into_bytes()))
        .collect();
    SwaggerUiAssets::from_entries(entries).unwrap()
}

#[test]
fn lib_swagger_ui_dist_exists() {
    let assets = bundle();
    println!("Checking if the bundle holds files ({})", assets.len());
    assert!(assets.len() != 0);

    println!("Checking if assets exists");
    let paths = assets.paths();
    for file in &asset_list() {
        println!("\t{}", file);
        assert!(paths.iter().any(|p| p == file));
    }
}

#[test]
fn lib_swagger_ui_assets() {
    let assets = bundle();
    println!("Checking if assets exists in the bundle");
    for asset in &asset_list() {
        println!("\t{}", asset);
        let data = assets.get(asset).unwrap();
        assert!(!data.is_empty());
    }
}

#[test]
fn bundle_keeps_order_and_bytes() {
    let assets = SwaggerUiAssets::from_entries(vec![
        ("b/x.js".to_string(), vec![1, 2, 3]),
        ("a.css".to_string(), vec![]),
    ])
    .unwrap();
    assert_eq!(assets.paths(), vec!["b/x.js".to_string(), "a.css".to_string()]);
    assert_eq!(assets.get("b/x.js"), Some(&vec![1u8, 2, 3]));
    assert_eq!(assets.get("a.css"), Some(&vec![]));
    assert_eq!(assets.get("x.js"), None);
    assert_eq!(assets.get(""), None);
}

#[test]
fn empty_bundle_holds_nothing() {
    let assets = SwaggerUiAssets::empty();
    assert_eq!(assets.len(), 0);
    assert!(assets.paths().is_empty());
    assert_eq!(assets.get("index.html"), None);
}

#[test]
fn bundle_refuses_bad_paths() {
    let one = |p: &str| SwaggerUiAssets::from_entries(vec![(p.to_string(), vec![0])]);
    assert!(one("").is_none());
    assert!(one("/index.html").is_none());
    assert!(one("..").is_none());
    assert!(one("../secret").is_none());
    assert!(one("a/../b").is_none());
    assert!(one("a/..").is_none());
    assert!(one("a/..b").is_some());
    assert!(one("..a/b").is_some());
    assert!(one("a/b..").is_some());
}

#[test]
fn bundle_refuses_equal_paths() {
    let r = SwaggerUiAssets::from_entries(vec![
        ("index.html".to_string(), vec![1]),
        ("app.js".to_string(), vec![2]),
        ("index.html".to_string(), vec![3]),
    ]);
    assert!(r.is_none());
}
