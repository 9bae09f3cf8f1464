//! Provisioning of disposable containers as test fixtures.
//!
//! The crate parses container image references, builds a declarative
//! container specification through an immutable builder chain, decides when
//! a started container is ready, and exposes the resolved host ports of a
//! running container.  The transport to the container runtime is the
//! caller's concern: the functions here work on plain values fetched from
//! the runtime and say exactly what they compute.

use vstd::prelude::*;

pub mod container;
pub mod dec;
pub mod image;
pub mod inspect;
pub mod kv;

pub use container::GenericContainer;
pub use container::GenericContainerBuilder;
pub use container::ReadyStrategy;
pub use image::DockerImage;
pub use image::Version;

use crate::container::regex_compiles;
use crate::container::regex_valid;
use crate::image::contains_char;
use crate::image::digest_marker_at;
use crate::image::find_char;
use crate::image::find_marker;
use crate::image::lemma_find_char_from;
use crate::image::lemma_find_marker_from;
use crate::image::spec_parse;
use crate::image::split_registry;
use crate::image::tag_valid;
use crate::kv::kv_map;

verus! {

/// A ready-made specification for a disposable PostgreSQL instance: the
/// `postgres:latest` image, a fixed test database, user and password, port
/// `5432/tcp` exposed, `fsync` switched off, and readiness read off the log.
pub fn postgresql() -> (r: GenericContainerBuilder)
    ensures
        r.wf(),
        r.image.matches_parsed("postgres:latest"@, spec_parse("postgres:latest"@)->Ok_0),
        kv_map(r.environment_variables@) == Map::<Seq<char>, Seq<char>>::empty().insert(
            "POSTGRES_DB"@,
            "test"@,
        ).insert("POSTGRES_USER"@, "test"@).insert("POSTGRES_PASSWORD"@, "test"@),
        kv_map(r.exposed_ports@) == Map::<Seq<char>, Option<u16>>::empty().insert(
            crate::dec::tcp_port_spec(5432),
            None::<u16>,
        ),
        r.command matches Some(v) && v@.len() == 3 && v@[0]@ == "postgres"@ && v@[1]@ == "-c"@
            && v@[2]@ == "fsync=off"@,
        regex_valid(".*database system is ready to accept connections.*\\s"@) ==> (
        r.wait_strategy_on_startup matches ReadyStrategy::LogMessageRegExp(p) && p@
            == ".*database system is ready to accept connections.*\\s"@),
        r.start_timeout_millis == container::DEFAULT_START_TIMEOUT_MILLIS,
{
    proof {
        lemma_postgres_latest_parses();
    }
    let b = GenericContainer::from_image("postgres:latest");
    proof {
        assert(kv_map(b.environment_variables@) =~= Map::<Seq<char>, Seq<char>>::empty());
        assert(kv_map(b.exposed_ports@) =~= Map::<Seq<char>, Option<u16>>::empty());
    }
    let b = b.add_env("POSTGRES_DB", "test");
    let b = b.add_env("POSTGRES_USER", "test");
    let b = b.add_env("POSTGRES_PASSWORD", "test");
    let b = b.add_exposed_tcp_port(5432);
    let b = b.with_command(&["postgres", "-c", "fsync=off"]);
    let pattern = ".*database system is ready to accept connections.*\\s";
    if regex_compiles(pattern) {
        b.wait_for_log_on_startup(pattern)
    } else {
        b
    }
}

/// The fixed reference `postgres:latest` parses: no registry, repository
/// `postgres`, tag `latest`.
proof fn lemma_postgres_latest_parses()
    ensures
        spec_parse("postgres:latest"@) is Ok,
{
    reveal_strlit("postgres:latest");
    let s = "postgres:latest"@;
    assert(s.len() == 15);
    assert(forall|j: int| 0 <= j < s.len() ==> s[j] != '/');
    lemma_find_char_from(s, '/', 0);
    assert(find_char(s, '/') is None);
    assert(split_registry(s) == (None::<Seq<char>>, s));
    assert(forall|j: int| 0 <= j < s.len() ==> s[j] != '@');
    assert(forall|j: int| 0 <= j < s.len() ==> !digest_marker_at(s, j));
    lemma_find_marker_from(s, 0);
    assert(find_marker(s) is None);
    assert(s[8] == ':');
    assert(forall|j: int| 0 <= j < 8 ==> s[j] != ':');
    lemma_find_char_from(s, ':', 0);
    assert(find_char(s, ':') == Some(8int));
    let tag = s.subrange(9, 15);
    assert(tag.len() == 6);
    assert(forall|i: int| 0 <= i < 6 ==> tag[i] == s[9 + i]);
    assert(tag_valid(tag));
    let repo = s.subrange(0, 8);
    assert(forall|i: int| 0 <= i < 8 ==> repo[i] == s[i]);
    assert(!contains_char(repo, '@'));
    assert(!contains_char(repo, ':'));
}

} // verus!
