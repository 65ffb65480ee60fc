use std::io;

use agentmem::{
    AgentMemoryError, ConfigError, LockError, NotFoundError, StoreError, ValidationError,
};

fn boom() -> io::Error {
    io::Error::new(io::ErrorKind::Other, "boom")
}

#[test]
fn validation_constructors_build_their_variants() {
    assert_eq!(ValidationError::empty("key"), ValidationError::Empty { field: "key" });
    assert_eq!(
        ValidationError::too_long("key", 300, 256),
        ValidationError::TooLong { field: "key", actual: 300, max: 256 }
    );
    assert_eq!(
        ValidationError::too_short("project_name", 1, 3),
        ValidationError::TooShort { field: "project_name", actual: 1, min: 3 }
    );
    assert_eq!(
        ValidationError::invalid_path("store_path", "must be relative"),
        ValidationError::InvalidPath { field: "store_path", reason: "must be relative" }
    );
    assert_eq!(
        ValidationError::invalid_segment("namespace", "empty segment"),
        ValidationError::InvalidSegment { field: "namespace", reason: "empty segment" }
    );
    assert_eq!(
        ValidationError::invalid_format("key", "leading slash"),
        ValidationError::InvalidFormat { field: "key", reason: "leading slash" }
    );
}

#[test]
fn validation_messages() {
    assert_eq!(ValidationError::empty("key").message(), "key must not be empty");
    assert_eq!(
        ValidationError::too_long("key", 300, 256).message(),
        "key exceeds maximum length: actual=300, max=256"
    );
    assert_eq!(
        ValidationError::too_short("project_name", 1, 3).message(),
        "project_name is below minimum length: actual=1, min=3"
    );
    assert_eq!(
        ValidationError::InvalidCharacter { field: "key", character: ' ', index: 3 }.message(),
        "key contains invalid character ' ' at byte index 3"
    );
    assert_eq!(
        ValidationError::InvalidEncoding { field: "value" }.message(),
        "value contains invalid encoding"
    );
    assert_eq!(
        ValidationError::invalid_path("store_path", "must be relative").message(),
        "invalid path for store_path: must be relative"
    );
    assert_eq!(
        ValidationError::invalid_segment("namespace", "empty segment").message(),
        "invalid segment in namespace: empty segment"
    );
    assert_eq!(
        ValidationError::invalid_format("key", "leading slash").message(),
        "invalid key: leading slash"
    );
}

#[test]
fn numbers_render_in_decimal_at_the_edges() {
    assert_eq!(
        ValidationError::too_long("v", 0, 9).message(),
        "v exceeds maximum length: actual=0, max=9"
    );
    assert_eq!(
        ValidationError::too_short("v", 10, 100).message(),
        "v is below minimum length: actual=10, min=100"
    );
    let big = ValidationError::too_long("v", usize::MAX, 1000).message();
    assert_eq!(big, format!("v exceeds maximum length: actual={}, max=1000", usize::MAX));
    assert_eq!(
        ConfigError::UnsupportedVersion { version: u32::MAX }.message(),
        "unsupported configuration version: 4294967295"
    );
}

#[test]
fn invalid_character_uses_debug_escaping() {
    assert_eq!(
        ValidationError::InvalidCharacter { field: "value", character: '\0', index: 7 }.message(),
        "value contains invalid character '\\0' at byte index 7"
    );
    assert_eq!(
        ValidationError::InvalidCharacter { field: "key", character: '\n', index: 0 }.message(),
        "key contains invalid character '\\n' at byte index 0"
    );
    assert_eq!(
        ValidationError::InvalidCharacter { field: "key", character: '\'', index: 2 }.message(),
        "key contains invalid character '\\'' at byte index 2"
    );
    assert_eq!(
        ValidationError::InvalidCharacter { field: "key", character: 'é', index: 5 }.message(),
        "key contains invalid character 'é' at byte index 5"
    );
}

#[test]
fn config_messages() {
    assert_eq!(
        ConfigError::MissingField { field: "project_name" }.message(),
        "missing required configuration field: project_name"
    );
    assert_eq!(
        ConfigError::UnsupportedVersion { version: 9999 }.message(),
        "unsupported configuration version: 9999"
    );
    assert_eq!(
        ConfigError::Malformed { reason: "not an object" }.message(),
        "malformed configuration: not an object"
    );
    assert_eq!(
        ConfigError::InvalidProjectName { reason: "contains spaces" }.message(),
        "invalid project name: contains spaces"
    );
    assert_eq!(
        ConfigError::InvalidStorePath { reason: "absolute path" }.message(),
        "invalid store path: absolute path"
    );
    assert_eq!(
        ConfigError::Parse { message: "expected value at line 1".to_string() }.message(),
        "failed to parse configuration: expected value at line 1"
    );
}

#[test]
fn not_found_constructor_and_message() {
    let e = NotFoundError::new("key", "agent/codex/missing");
    assert_eq!(e.kind, "key");
    assert_eq!(e.identifier, "agent/codex/missing");
    assert_eq!(e.message(), "key not found: agent/codex/missing");
    assert_eq!(
        e,
        NotFoundError { kind: "key", identifier: "agent/codex/missing".to_string() }
    );
}

#[test]
fn store_constructors_build_their_variants() {
    match StoreError::missing_file(".agentmem/store.json") {
        StoreError::MissingFile { path } => assert_eq!(path, ".agentmem/store.json"),
        other => panic!("unexpected {:?}", other),
    }
    match StoreError::malformed("bad header") {
        StoreError::Malformed { reason } => assert_eq!(reason, "bad header"),
        other => panic!("unexpected {:?}", other),
    }
    match StoreError::read("s.json", boom()) {
        StoreError::Read { path, source } => {
            assert_eq!(path, "s.json");
            assert_eq!(source.to_string(), "boom");
        },
        other => panic!("unexpected {:?}", other),
    }
    match StoreError::write("s.json", boom()) {
        StoreError::Write { path, source } => {
            assert_eq!(path, "s.json");
            assert_eq!(source.kind(), io::ErrorKind::Other);
        },
        other => panic!("unexpected {:?}", other),
    }
    match StoreError::atomic_persist("s.json", "rename failed") {
        StoreError::AtomicPersist { path, reason } => {
            assert_eq!(path, "s.json");
            assert_eq!(reason, "rename failed");
        },
        other => panic!("unexpected {:?}", other),
    }
}

#[test]
fn store_messages() {
    assert_eq!(StoreError::NotInitialized.message().unwrap(), "store is not initialized");
    assert_eq!(
        StoreError::missing_file("/tmp/demo/store.json").message().unwrap(),
        "store file does not exist: /tmp/demo/store.json"
    );
    assert_eq!(StoreError::malformed("bad header").message().unwrap(), "store file is malformed: bad header");
    assert_eq!(
        StoreError::UnsupportedVersion { version: 2 }.message().unwrap(),
        "unsupported store format version: 2"
    );
    assert_eq!(
        StoreError::PreparePath { path: "/tmp/x".to_string(), source: boom() }.message().unwrap(),
        "failed to prepare store path /tmp/x: boom"
    );
    assert_eq!(StoreError::read("s.json", boom()).message().unwrap(), "failed to read store s.json: boom");
    assert_eq!(StoreError::write("s.json", boom()).message().unwrap(), "failed to write store s.json: boom");
    assert_eq!(
        StoreError::atomic_persist("s.json", "rename failed").message().unwrap(),
        "atomic persist failed for s.json: rename failed"
    );
    assert_eq!(
        StoreError::Serialize { message: "cycle".to_string() }.message().unwrap(),
        "failed to serialize store: cycle"
    );
    assert_eq!(
        StoreError::Deserialize { message: "eof".to_string() }.message().unwrap(),
        "failed to deserialize store: eof"
    );
}

#[test]
fn lock_messages() {
    assert_eq!(
        LockError::AlreadyHeld { path: "s.lock".to_string() }.message().unwrap(),
        "store lock is already held: s.lock"
    );
    assert_eq!(
        LockError::Timeout { path: "s.lock".to_string() }.message().unwrap(),
        "timed out while acquiring lock: s.lock"
    );
    assert_eq!(
        LockError::Acquire { path: "s.lock".to_string(), source: boom() }.message().unwrap(),
        "failed to acquire lock for s.lock: boom"
    );
    assert_eq!(
        LockError::Release { path: "s.lock".to_string(), source: boom() }.message().unwrap(),
        "failed to release lock for s.lock: boom"
    );
}

#[test]
fn lock_error_converts_transparently_into_store_error() {
    let lock = LockError::Acquire { path: "s.lock".to_string(), source: boom() };
    let expected = lock.message().unwrap();
    let store = StoreError::from(lock);
    assert!(matches!(store, StoreError::Lock(LockError::Acquire { .. })));
    assert_eq!(store.message().unwrap(), expected);
    assert_eq!(store.io_source().map(|e| e.to_string()), Some("boom".to_string()));

    let held = StoreError::from(LockError::Timeout { path: "p".to_string() });
    assert_eq!(held.message().unwrap(), "timed out while acquiring lock: p");
    assert!(held.io_source().is_none());
}

#[test]
fn agent_constructors_build_their_variants() {
    match AgentMemoryError::io(boom()) {
        AgentMemoryError::Io { source } => assert_eq!(source.to_string(), "boom"),
        other => panic!("unexpected {:?}", other),
    }
    assert!(matches!(
        AgentMemoryError::overflow("computing record size"),
        AgentMemoryError::Overflow { context: "computing record size" }
    ));
    assert!(matches!(
        AgentMemoryError::internal("index out of sync"),
        AgentMemoryError::Internal { message: "index out of sync" }
    ));
}

#[test]
fn agent_messages() {
    assert_eq!(AgentMemoryError::io(boom()).message().unwrap(), "I/O error: boom");
    assert_eq!(
        AgentMemoryError::overflow("computing record size").message().unwrap(),
        "overflow while computing record size"
    );
    assert_eq!(
        AgentMemoryError::internal("index out of sync").message().unwrap(),
        "internal invariant violation: index out of sync"
    );
    assert_eq!(AgentMemoryError::io(boom()).message_with_cause("disk full"), "I/O error: disk full");
}

#[test]
fn conversions_into_agent_error_are_transparent() {
    let v = ValidationError::empty("key");
    let a = AgentMemoryError::from(v.clone());
    assert!(matches!(&a, AgentMemoryError::Validation(inner) if *inner == v));
    assert_eq!(a.message().unwrap(), v.message());
    assert!(a.io_source().is_none());

    let c = ConfigError::Malformed { reason: "x" };
    let a = AgentMemoryError::from(c.clone());
    assert!(matches!(&a, AgentMemoryError::Config(inner) if *inner == c));
    assert_eq!(a.message().unwrap(), "malformed configuration: x");

    let n = NotFoundError::new("key", "k");
    let a = AgentMemoryError::from(n.clone());
    assert!(matches!(&a, AgentMemoryError::NotFound(inner) if *inner == n));
    assert_eq!(a.message().unwrap(), "key not found: k");

    let a = AgentMemoryError::from(StoreError::read("s.json", boom()));
    assert_eq!(a.message().unwrap(), "failed to read store s.json: boom");
    assert_eq!(a.io_source().map(|e| e.to_string()), Some("boom".to_string()));

    let a = AgentMemoryError::from(boom());
    assert!(matches!(&a, AgentMemoryError::Io { .. }));
    assert_eq!(a.message().unwrap(), "I/O error: boom");
}

#[test]
fn message_with_cause_ignores_cause_without_source() {
    let a = AgentMemoryError::from(ValidationError::empty("key"));
    assert_eq!(a.message_with_cause("anything"), "key must not be empty");
    assert_eq!(a.message_with_cause(""), a.message_with_cause("other"));
    let s = StoreError::NotInitialized;
    assert_eq!(s.message_with_cause("x"), s.message_with_cause("y"));
}

#[test]
fn io_source_reports_the_underlying_error() {
    assert!(AgentMemoryError::overflow("x").io_source().is_none());
    assert!(StoreError::missing_file("p").io_source().is_none());
    let e = StoreError::write("p", io::Error::new(io::ErrorKind::PermissionDenied, "denied"));
    assert_eq!(e.io_source().map(|s| s.kind()), Some(io::ErrorKind::PermissionDenied));
    let l = LockError::Release { path: "p".to_string(), source: boom() };
    assert!(l.io_source().is_some());
}

#[test]
fn validation_and_config_wrappers_differ() {
    let a = AgentMemoryError::from(ValidationError::empty("key"));
    let b = AgentMemoryError::from(ConfigError::MissingField { field: "key" });
    assert!(matches!(a, AgentMemoryError::Validation(_)));
    assert!(matches!(b, AgentMemoryError::Config(_)));
}

#[derive(Debug)]
struct RefusesToRender;

impl std::fmt::Display for RefusesToRender {
    fn fmt(&self, _f: &mut std::fmt::Formatter<'_>) -> std::fmt::Result {
        Err(std::fmt::Error)
    }
}

impl std::error::Error for RefusesToRender {}

#[test]
fn cause_whose_formatter_fails_makes_message_fail() {
    let e = AgentMemoryError::io(io::Error::new(io::ErrorKind::Other, RefusesToRender));
    assert_eq!(e.message(), Err(std::fmt::Error));
    let s = StoreError::read("s.json", io::Error::new(io::ErrorKind::Other, RefusesToRender));
    assert_eq!(s.message(), Err(std::fmt::Error));
    let l = LockError::Acquire {
        path: "s.lock".to_string(),
        source: io::Error::new(io::ErrorKind::Other, RefusesToRender),
    };
    assert_eq!(l.message(), Err(std::fmt::Error));
    // The rest of the message does not depend on the cause's rendering.
    assert_eq!(e.message_with_cause("x"), "I/O error: x");
    assert_eq!(AgentMemoryError::from(StoreError::from(l)).message(), Err(std::fmt::Error));
}

#[test]
fn result_alias_carries_the_crate_error() {
    fn fails() -> agentmem::Result<u32> {
        Err(AgentMemoryError::overflow("adding lengths"))
    }
    let r = fails();
    assert_eq!(r.map_err(|e| e.message().unwrap()), Err("overflow while adding lengths".to_string()));
}

#[test]
fn printable_ascii_characters_render_as_themselves() {
    assert_eq!(
        ValidationError::InvalidCharacter { field: "key", character: '"', index: 1 }.message(),
        "key contains invalid character '\"' at byte index 1"
    );
    assert_eq!(
        ValidationError::InvalidCharacter { field: "key", character: 'A', index: 0 }.message(),
        "key contains invalid character 'A' at byte index 0"
    );
    assert_eq!(
        ValidationError::InvalidCharacter { field: "key", character: '\\', index: 4 }.message(),
        "key contains invalid character '\\\\' at byte index 4"
    );
}
