use cortex_mem::tools::{
    get_mcp_tool_definition, get_mcp_tool_definitions, DefaultValue, PropertyKind,
    SEARCH_DESCRIPTION,
};

#[test]
fn catalog_lists_twelve_tools_in_order() {
    let names: Vec<String> = get_mcp_tool_definitions().into_iter().map(|t| t.name).collect();
    assert_eq!(
        names,
        vec![
            "search", "recall", "store", "commit", "ls", "abstract", "overview", "content",
            "explore", "delete", "layers", "index"
        ]
    );
}

#[test]
fn lookup_finds_each_tool_by_name() {
    for t in get_mcp_tool_definitions() {
        let found = get_mcp_tool_definition(&t.name).expect("listed tool");
        assert_eq!(found.name, t.name);
        assert_eq!(found.description, t.description);
        assert_eq!(found.input_schema.properties.len(), t.input_schema.properties.len());
    }
}

#[test]
fn lookup_of_unknown_tool_is_none() {
    assert!(get_mcp_tool_definition("nonexistent").is_none());
    assert!(get_mcp_tool_definition("").is_none());
    assert!(get_mcp_tool_definition("Search").is_none());
}

#[test]
fn search_schema() {
    let t = get_mcp_tool_definition("search").unwrap();
    assert_eq!(t.description, SEARCH_DESCRIPTION);
    assert!(t.description.starts_with("Layered semantic search across memory"));
    assert_eq!(t.input_schema.required, vec!["query".to_string()]);
    let p = &t.input_schema.properties;
    assert_eq!(p.len(), 5);
    assert_eq!(p[0].name, "query");
    assert_eq!(p[0].kind, PropertyKind::Text);
    assert!(p[0].default.is_none());
    assert_eq!(p[2].name, "limit");
    assert_eq!(p[2].kind, PropertyKind::Integer);
    assert!(matches!(p[2].default, Some(DefaultValue::Integer(10))));
    assert_eq!(p[3].name, "min_score");
    assert_eq!(p[3].kind, PropertyKind::Number);
    assert!(matches!(p[3].default, Some(DefaultValue::Ratio(1, 2))));
    assert_eq!(p[4].kind, PropertyKind::TextList);
    assert_eq!(p[4].allowed, vec!["L0".to_string(), "L1".to_string(), "L2".to_string()]);
    match &p[4].default {
        Some(DefaultValue::TextList(v)) => assert_eq!(v, &vec!["L0".to_string()]),
        _ => panic!("return_layers default"),
    }
}

#[test]
fn store_and_ls_schemas() {
    let store = get_mcp_tool_definition("store").unwrap();
    let role = &store.input_schema.properties[2];
    assert_eq!(role.name, "role");
    assert_eq!(role.allowed, vec!["user", "assistant", "system"]);
    assert!(matches!(&role.default, Some(DefaultValue::Text(s)) if s == "user"));
    let ls = get_mcp_tool_definition("ls").unwrap();
    assert!(ls.input_schema.required.is_empty());
    assert!(matches!(&ls.input_schema.properties[0].default, Some(DefaultValue::Text(s)) if s == "cortex://session"));
    assert!(matches!(ls.input_schema.properties[1].default, Some(DefaultValue::Boolean(false))));
}

#[test]
fn required_parameters_are_declared() {
    for t in get_mcp_tool_definitions() {
        for r in &t.input_schema.required {
            assert!(t.input_schema.properties.iter().any(|p| &p.name == r), "{}", t.name);
        }
    }
}

#[test]
fn inline_descriptions() {
    let d = get_mcp_tool_definition("delete").unwrap();
    assert_eq!(
        d.description,
        "Delete a memory by its URI.\n\nThis removes the memory from both the filesystem and the vector database (all layers: L0, L1, L2)."
    );
    let c = get_mcp_tool_definition("content").unwrap();
    assert_eq!(c.input_schema.properties[0].description, "Content URI (file only)");
}
