use dbmcp::config::DatabaseConfig;
use dbmcp::tools::{
    generic_server_tools, mysql_description, mysql_server_tools, mysql_tool_info, mysql_tools,
    postgres_description,
    postgres_instruction_text, postgres_instructions, postgres_server_tools, postgres_tool_info, postgres_tools,
    InstructionSet,
    ToolKind,
};

fn names(tools: &[ToolKind]) -> Vec<&'static str> {
    tools.iter().map(|t| t.name()).collect()
}

#[test]
fn router_exposes_all_nine_tools_in_read_write_mode() {
    let tools = names(&mysql_tools(false));
    assert_eq!(tools.len(), 9);
    for name in [
        "listDatabases",
        "listTables",
        "getTableSchema",
        "readQuery",
        "explainQuery",
        "createDatabase",
        "dropDatabase",
        "dropTable",
        "writeQuery",
    ] {
        assert!(tools.contains(&name), "missing tool: {name}");
    }
}

#[test]
fn mysql_read_only_router_hides_write_tools() {
    let tools = names(&mysql_tools(true));
    for name in ["listDatabases", "listTables", "getTableSchema", "readQuery", "explainQuery"] {
        assert!(tools.contains(&name));
    }
    for name in ["writeQuery", "createDatabase", "dropDatabase", "dropTable"] {
        assert!(!tools.contains(&name));
    }
}

#[test]
fn router_exposes_all_thirteen_tools_in_read_write_mode() {
    let tools = names(&postgres_tools(false, false));
    assert_eq!(tools.len(), 13);
    for name in [
        "listDatabases",
        "listTables",
        "listViews",
        "listTriggers",
        "listFunctions",
        "listProcedures",
        "listMaterializedViews",
        "readQuery",
        "explainQuery",
        "createDatabase",
        "dropDatabase",
        "dropTable",
        "writeQuery",
    ] {
        assert!(tools.contains(&name), "missing tool: {name}");
    }
}

#[test]
fn handler_router_hides_write_tools_in_read_only_mode() {
    let tools = names(&postgres_tools(true, false));
    for name in [
        "listDatabases",
        "listTables",
        "listViews",
        "listTriggers",
        "listFunctions",
        "listProcedures",
        "listMaterializedViews",
        "readQuery",
        "explainQuery",
    ] {
        assert!(tools.contains(&name));
    }
    for name in ["writeQuery", "createDatabase", "dropDatabase", "dropTable"] {
        assert!(!tools.contains(&name));
    }
}

#[test]
fn router_does_not_expose_get_table_schema() {
    assert!(!names(&postgres_tools(false, false)).contains(&"getTableSchema"), "read-write router must not expose getTableSchema");
    assert!(!names(&postgres_tools(true, false)).contains(&"getTableSchema"), "read-only router must not expose getTableSchema");
}

#[test]
fn router_hides_cross_database_tools_when_name_pinned() {
    let tools = names(&postgres_tools(false, true));
    for present in ["listTables", "readQuery", "explainQuery", "dropTable", "writeQuery"] {
        assert!(tools.contains(&present), "missing tool: {present}");
    }
    for absent in ["listDatabases", "createDatabase", "dropDatabase"] {
        assert!(!tools.contains(&absent), "pinned router must not expose {absent}");
    }
}

#[test]
fn router_hides_list_databases_when_name_pinned_read_only() {
    let tools = names(&postgres_tools(true, true));
    assert!(!tools.contains(&"listDatabases"));
    assert!(!tools.contains(&"createDatabase"));
    assert!(!tools.contains(&"dropDatabase"));
    assert!(tools.contains(&"listTables"));
    assert!(tools.contains(&"readQuery"));
}

#[test]
fn read_only_tools_are_annotated_read_only() {
    for read_only_pinned in [false, true] {
        for t in postgres_tools(true, read_only_pinned) {
            assert!(t.annotations().read_only);
            assert!(!t.is_write());
        }
    }
    for t in mysql_tools(true) {
        assert!(t.annotations().read_only);
    }
}

#[test]
fn tool_info_carries_name_title_and_hints() {
    let info = mysql_tool_info(ToolKind::DropTable);
    assert_eq!(info.name, "dropTable");
    assert_eq!(info.title, Some("Drop Table"));
    assert!(info.annotations.destructive);
    assert!(!info.annotations.read_only);
    let pg = postgres_tool_info(ToolKind::ReadQuery);
    assert_eq!(pg.name, "readQuery");
    assert!(pg.annotations.open_world);
    assert!(pg.annotations.idempotent);
    assert!(!pg.description.is_empty());
}

#[test]
fn instructions_follow_mode_and_pinning() {
    let rw = DatabaseConfig { read_only: false, name: None, ..DatabaseConfig::default() };
    assert_eq!(postgres_instructions(&rw), InstructionSet::ReadWrite);
    let ro = DatabaseConfig { read_only: true, ..rw.clone() };
    assert_eq!(postgres_instructions(&ro), InstructionSet::ReadOnly);
    let pinned = DatabaseConfig { name: Some("mydb".into()), ..rw.clone() };
    assert_eq!(postgres_instructions(&pinned), InstructionSet::Pinned);
    let ro_pinned = DatabaseConfig { read_only: true, name: Some(String::new()), ..rw };
    assert_eq!(postgres_instructions(&ro_pinned), InstructionSet::ReadOnlyPinned);
}

#[test]
fn server_tools_follow_configuration() {
    let pinned_ro = DatabaseConfig { read_only: true, name: Some("mydb".into()), ..DatabaseConfig::default() };
    let tools = names(&postgres_server_tools(&pinned_ro));
    assert!(!tools.contains(&"listDatabases"));
    assert!(!tools.contains(&"writeQuery"));
    assert!(tools.contains(&"listTables"));
    let rw = DatabaseConfig { read_only: false, ..DatabaseConfig::default() };
    assert_eq!(mysql_server_tools(&rw).len(), 9);
}

#[test]
fn descriptions_are_backend_specific() {
    assert_eq!(mysql_description(ToolKind::DropTable), "Drop a table from a database.");
    assert!(postgres_description(ToolKind::DropTable).starts_with("Drop a table from a database. Checks for foreign key"));
    assert_eq!(ToolKind::ListMaterializedViews.title(), Some("List Materialized Views"));
}

#[test]
fn generic_router_follows_backend_capabilities() {
    assert_eq!(
        generic_server_tools(true, false),
        ["list_databases", "list_tables", "get_table_schema", "read_query", "write_query", "create_database"]
    );
    assert_eq!(generic_server_tools(false, true), ["list_tables", "get_table_schema", "read_query"]);
    assert_eq!(
        generic_server_tools(false, false),
        ["list_tables", "get_table_schema", "read_query", "write_query"]
    );
    assert_eq!(generic_server_tools(true, true), ["list_databases", "list_tables", "get_table_schema", "read_query"]);
}

#[test]
fn instructions_match_read_only_mode() {
    let read_write = postgres_instruction_text(false, false);
    assert!(read_write.contains("writeQuery"), "read-write instructions mention writeQuery");
    let read_only = postgres_instruction_text(true, false);
    for tool in ["writeQuery", "createDatabase", "dropDatabase", "dropTable"] {
        assert!(!read_only.contains(tool), "read-only instructions must not mention {tool}");
    }
}

#[test]
fn instructions_match_pinned_mode() {
    for read_only in [false, true] {
        let instructions = postgres_instruction_text(read_only, true);
        for tool in ["listDatabases", "createDatabase", "dropDatabase"] {
            assert!(
                !instructions.contains(tool),
                "pinned instructions must not mention {tool} (read_only={read_only})"
            );
        }
    }
}

#[test]
fn instructions_keep_the_lines_of_offered_tools() {
    let read_write = postgres_instruction_text(false, false);
    assert!(read_write.starts_with("## Workflow\n"));
    assert!(read_write.contains("`listDatabases`"));
    assert!(read_write.contains("`dropTable`"));
    assert!(read_write.contains("## Constraints"));
    let read_only_pinned = postgres_instruction_text(true, true);
    assert!(read_only_pinned.contains("`listTables`"));
    assert!(read_only_pinned.contains("`readQuery`"));
    assert!(read_only_pinned.contains("Send one statement per request."));
    assert!(!read_only_pinned.contains("listDatabases"));
    let pinned = postgres_instruction_text(false, true);
    assert!(pinned.contains("`writeQuery`"));
    assert!(pinned.contains("`dropTable`"));
    assert!(!pinned.contains("hidden when read-only"));
}
