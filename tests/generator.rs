use lttng_ust_generate::allowlist::whitelist_interface;
use lttng_ust_generate::args::generate_c_args;
use lttng_ust_generate::ctf::{ctf_field_c_type, CTFType, IntegerType};
use lttng_ust_generate::interface::{
    generate_interface_header, generate_interface_impl, generate_provider_header,
    generate_provider_impl,
};
use lttng_ust_generate::naming::generate_func_name;
use lttng_ust_generate::schema::{EventClass, EventInstance, Field, Provider};

fn field(name: &str, ctf_type: CTFType) -> Field {
    Field { name: name.to_string(), ctf_type }
}

fn class(name: &str, fields: Vec<Field>, instances: &[&str]) -> EventClass {
    EventClass {
        class_name: name.to_string(),
        fields,
        instances: instances.iter().map(|i| EventInstance { name: i.to_string() }).collect(),
    }
}

fn provider(name: &str, classes: Vec<EventClass>) -> Provider {
    Provider { name: name.to_string(), classes }
}

fn app_schema() -> Vec<Provider> {
    vec![provider(
        "app",
        vec![class(
            "net",
            vec![
                field("addr", CTFType::Integer(IntegerType::I32)),
                field("payload", CTFType::SequenceText),
            ],
            &["send"],
        )],
    )]
}

fn allowlisted(b: &bindgen::Builder) -> Vec<String> {
    let flags = b.command_line_flags();
    let mut names = Vec::new();
    for w in flags.windows(2) {
        if w[0] == "--allowlist-function" {
            names.push(w[1].clone());
        }
    }
    names
}

const PREAMBLE: &str = "#if !defined(_RUST_TRACEPOINT_INTERFACE)\n#define _RUST_TRACEPOINT_INTERFACE\n#include <stdint.h>\n#include <stddef.h>\n";

#[test]
fn func_name_joins_parts() {
    let p = provider("app", vec![]);
    let c = class("net", vec![], &[]);
    let i = EventInstance { name: "send".to_string() };
    assert_eq!(generate_func_name(&p, &c, &i), "app_net_send_tp");
}

#[test]
fn c_types_of_tags() {
    assert_eq!(ctf_field_c_type(CTFType::Integer(IntegerType::I8)), "int8_t");
    assert_eq!(ctf_field_c_type(CTFType::Integer(IntegerType::U64)), "uint64_t");
    assert_eq!(ctf_field_c_type(CTFType::Text), "const char*");
    assert_eq!(ctf_field_c_type(CTFType::Sequence(IntegerType::U16)), "const uint16_t*");
    assert_eq!(ctf_field_c_type(CTFType::SequenceText), "const char*");
}

#[test]
fn sequence_tags() {
    assert!(CTFType::Sequence(IntegerType::I32).is_sequence());
    assert!(CTFType::SequenceText.is_sequence());
    assert!(!CTFType::Text.is_sequence());
    assert!(!CTFType::Integer(IntegerType::U8).is_sequence());
}

#[test]
fn c_args_typed_and_bare() {
    let fields = vec![
        field("a", CTFType::Integer(IntegerType::U32)),
        field("b", CTFType::Sequence(IntegerType::I16)),
        field("c", CTFType::Text),
    ];
    assert_eq!(
        generate_c_args(&fields, true),
        "uint32_t a_arg, const int16_t* b_arg, size_t b_len, const char* c_arg"
    );
    assert_eq!(generate_c_args(&fields, false), "a_arg, b_arg, b_len, c_arg");
}

#[test]
fn length_token_follows_sequence_field() {
    let fields = vec![
        field("x", CTFType::Sequence(IntegerType::U8)),
        field("y", CTFType::Integer(IntegerType::I64)),
        field("z", CTFType::SequenceText),
    ];
    let typed = generate_c_args(&fields, true);
    let bare = generate_c_args(&fields, false);
    let typed: Vec<&str> = typed.split(", ").collect();
    let bare: Vec<&str> = bare.split(", ").collect();
    assert_eq!(typed.len(), bare.len());
    assert_eq!(typed, vec!["const uint8_t* x_arg", "size_t x_len", "int64_t y_arg", "const char* z_arg", "size_t z_len"]);
    assert_eq!(bare, vec!["x_arg", "x_len", "y_arg", "z_arg", "z_len"]);
}

#[test]
fn empty_fields_render_empty() {
    assert_eq!(generate_c_args(&[], true), "");
    assert_eq!(generate_c_args(&[], false), "");
}

#[test]
fn zero_field_declaration_and_definition() {
    let ps = vec![provider("sys", vec![class("boot", vec![], &["start"])])];
    assert_eq!(
        generate_interface_header(&ps),
        format!("{}extern void sys_boot_start_tp();\n#endif", PREAMBLE)
    );
    assert_eq!(
        generate_provider_impl(&ps[0]),
        "void sys_boot_start_tp() {\n    tracepoint(sys, start);\n}\n\n"
    );
}

#[test]
fn app_net_send_example() {
    let ps = app_schema();
    assert_eq!(
        generate_provider_header(&ps[0]),
        "extern void app_net_send_tp(int32_t addr_arg, const char* payload_arg, size_t payload_len);\n"
    );
    let implementation = generate_interface_impl(&ps, "iface.h", "tp.h");
    assert_eq!(
        implementation,
        "#include \"iface.h\"\n#include \"tp.h\"\n\
         void app_net_send_tp(int32_t addr_arg, const char* payload_arg, size_t payload_len) {\n    \
         tracepoint(app, send, addr_arg, payload_arg, payload_len);\n}\n\n"
    );
    let b = whitelist_interface(&ps, bindgen::builder());
    assert_eq!(allowlisted(&b), vec!["app_net_send_tp".to_string()]);
}

#[test]
fn empty_schema_outputs() {
    assert_eq!(generate_interface_header(&[]), format!("{}#endif", PREAMBLE));
    assert_eq!(generate_interface_impl(&[], "a.h", "b.h"), "#include \"a.h\"\n#include \"b.h\"\n");
    assert!(allowlisted(&whitelist_interface(&[], bindgen::builder())).is_empty());
}

#[test]
fn same_instance_name_in_two_providers() {
    let ps = vec![
        provider("alpha", vec![class("life", vec![], &["start"])]),
        provider("beta", vec![class("life", vec![], &["start"])]),
    ];
    let header = generate_interface_header(&ps);
    assert!(header.contains("extern void alpha_life_start_tp();\n"));
    assert!(header.contains("extern void beta_life_start_tp();\n"));
    let names = allowlisted(&whitelist_interface(&ps, bindgen::builder()));
    assert_eq!(names, vec!["alpha_life_start_tp".to_string(), "beta_life_start_tp".to_string()]);
    assert_ne!(names[0], names[1]);
}

fn larger_schema() -> Vec<Provider> {
    vec![
        provider(
            "app",
            vec![
                class(
                    "net",
                    vec![
                        field("addr", CTFType::Integer(IntegerType::U32)),
                        field("payload", CTFType::SequenceText),
                    ],
                    &["send", "recv"],
                ),
                class("tick", vec![], &["beat"]),
            ],
        ),
        provider("db", vec![class("query", vec![field("sql", CTFType::Text)], &["run"])]),
    ]
}

#[test]
fn outputs_name_the_same_functions() {
    let ps = larger_schema();
    let header = generate_interface_header(&ps);
    let implementation = generate_interface_impl(&ps, "i.h", "t.h");
    let expected = vec!["app_net_send_tp", "app_net_recv_tp", "app_tick_beat_tp", "db_query_run_tp"];
    let declared: Vec<String> = header
        .lines()
        .filter_map(|l| l.strip_prefix("extern void "))
        .map(|l| l.split('(').next().unwrap().to_string())
        .collect();
    let defined: Vec<String> = implementation
        .lines()
        .filter_map(|l| l.strip_prefix("void "))
        .map(|l| l.split('(').next().unwrap().to_string())
        .collect();
    let allowed = allowlisted(&whitelist_interface(&ps, bindgen::builder()));
    assert_eq!(declared, expected);
    assert_eq!(defined, expected);
    assert_eq!(allowed, expected);
}

#[test]
fn regeneration_is_identical() {
    let ps = larger_schema();
    assert_eq!(generate_interface_header(&ps), generate_interface_header(&larger_schema()));
    assert_eq!(
        generate_interface_impl(&ps, "i.h", "t.h"),
        generate_interface_impl(&larger_schema(), "i.h", "t.h")
    );
}

#[test]
fn allowlist_membership_ignores_order() {
    let mut ps = larger_schema();
    let forward = allowlisted(&whitelist_interface(&ps, bindgen::builder().allowlist_function("keep")));
    ps.reverse();
    let backward = allowlisted(&whitelist_interface(&ps, bindgen::builder().allowlist_function("keep")));
    assert_eq!(forward[0], "keep");
    assert_ne!(forward, backward);
    let mut a = forward.clone();
    let mut b = backward.clone();
    a.sort();
    b.sort();
    assert_eq!(a, b);
    assert_eq!(a.len(), 5);
}

