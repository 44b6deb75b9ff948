use swagger_ui::config::is_zero;
use swagger_ui::document::config_json;
use swagger_ui::redirect::RedirectHandler;
use swagger_ui::source::{file_name, mount_prefix, resolve_config};
use swagger_ui::{Config, DefaultModelRendering, DocExpansion, Filter, SpecOrUrl, UrlObject, index_location};

#[test]
fn default_config_document() {
    assert_eq!(
        config_json(&Config::default()),
        "{\"deepLinking\":false,\"displayOperationId\":false,\"defaultModelsExpandDepth\":1,\
         \"defaultModelExpandDepth\":1,\"defaultModelRendering\":\"example\",\
         \"displayRequestDuration\":false,\"docExpansion\":\"list\",\"filter\":false,\
         \"showExtensions\":false,\"showCommonExtensions\":false}"
    );
}

#[test]
fn full_config_document() {
    let mut c = Config::default();
    c.url = "/a \"b\".json".to_string();
    c.urls = vec![UrlObject::new("one", "/1.json"), UrlObject::new("two", "/2.json")];
    c.deep_linking = true;
    c.default_models_expand_depth = -1;
    c.default_model_expand_depth = 12;
    c.default_model_rendering = DefaultModelRendering::Model;
    c.doc_expansion = DocExpansion::Collapsed;
    c.filter = Filter::Str("pet\\s".to_string());
    c.max_displayed_tags = 40;
    c.show_common_extensions = true;
    let text = config_json(&c);
    assert_eq!(
        text,
        "{\"url\":\"/a \\\"b\\\".json\",\"urls\":[{\"name\":\"one\",\"url\":\"/1.json\"},\
         {\"name\":\"two\",\"url\":\"/2.json\"}],\"deepLinking\":true,\"displayOperationId\":false,\
         \"defaultModelsExpandDepth\":-1,\"defaultModelExpandDepth\":12,\
         \"defaultModelRendering\":\"model\",\"displayRequestDuration\":false,\
         \"docExpansion\":\"none\",\"filter\":\"pet\\\\s\",\"maxDisplayedTags\":40,\
         \"showExtensions\":false,\"showCommonExtensions\":true}"
    );
    let v: serde_json::Value = serde_json::from_str(&text).unwrap();
    assert_eq!(v["url"], "/a \"b\".json");
    assert_eq!(v["filter"], "pet\\s");
    assert_eq!(v["defaultModelsExpandDepth"], -1);
    assert_eq!(v["urls"][1]["url"], "/2.json");
}

#[test]
fn document_of_extreme_numbers() {
    let mut c = Config::default();
    c.default_models_expand_depth = i32::MIN;
    c.default_model_expand_depth = i32::MAX;
    c.max_displayed_tags = u32::MAX;
    c.filter = Filter::Bool(true);
    c.doc_expansion = DocExpansion::Full;
    let v: serde_json::Value = serde_json::from_str(&config_json(&c)).unwrap();
    assert_eq!(v["defaultModelsExpandDepth"], i32::MIN as i64);
    assert_eq!(v["defaultModelExpandDepth"], i32::MAX as i64);
    assert_eq!(v["maxDisplayedTags"], u32::MAX as u64);
    assert_eq!(v["filter"], true);
    assert_eq!(v["docExpansion"], "full");
}

#[test]
fn zero_check() {
    assert!(is_zero(&0));
    assert!(!is_zero(&1));
    assert!(!is_zero(&u32::MAX));
}

#[test]
fn resolve_sets_only_url() {
    let mut base = Config::default();
    base.url = "ignored".to_string();
    base.deep_linking = true;
    base.max_displayed_tags = 3;
    let spec = swagger_ui::Spec { name: "openapi.json".to_string(), content: vec![] };
    let c = resolve_config(&base, "/p", &SpecOrUrl::Spec(spec));
    assert_eq!(c.url, "/p/openapi.json");
    assert!(c.deep_linking);
    assert_eq!(c.max_displayed_tags, 3);
    assert_eq!(base.url, "ignored");
    let c = resolve_config(&base, "/p", &SpecOrUrl::Url("http://h/s.json".to_string()));
    assert_eq!(c.url, "http://h/s.json");
}

#[test]
fn spec_file_names() {
    assert_eq!(file_name("openapi.json"), Some("openapi.json"));
    assert_eq!(file_name("../../swagger-ui/examples/openapi.json"), Some("openapi.json"));
    assert_eq!(file_name("/abs/api.yaml"), Some("api.yaml"));
    assert_eq!(file_name("dir/"), None);
    assert_eq!(file_name(""), None);
    assert_eq!(file_name(".."), None);
    assert_eq!(file_name("a/."), None);
}

#[test]
fn mount_prefixes() {
    assert_eq!(mount_prefix("/api/v1/swagger/swagger-ui-config.json"), "/api/v1/swagger");
    assert_eq!(mount_prefix("/swagger-ui-config.json"), "");
    assert_eq!(mount_prefix("/other/"), "/other");
}

#[test]
fn index_locations() {
    assert_eq!(index_location("/s", None), "/s/index.html?configUrl=/s/swagger-ui-config.json");
    assert_eq!(index_location("/", None), "/index.html?configUrl=/swagger-ui-config.json");
    assert_eq!(index_location("/s/", Some("a=b")), "/s/index.html?a=b");
}

#[test]
fn redirect_handler_targets() {
    let h = RedirectHandler::to("/index.html");
    assert_eq!(h.dest(), "index.html");
    assert_eq!(h.location("/api/v1/swagger/"), "/api/v1/swagger/index.html");
    assert_eq!(h.location("/api"), "/api/index.html");
    assert_eq!(RedirectHandler::to("index.html").location(""), "/index.html");
}
