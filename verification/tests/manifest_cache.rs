use gitdl::errors::DlError;
use gitdl::identity::RepoIdentity;
use gitdl::manifest::{
    cache_file_name, decode_manifest, encode_manifest, listing_url, manifest_from_remote_text,
    plan_manifest_fetch, sanitize, ManifestSource,
};

fn identity(owner: &str, project: &str, revision: &str) -> RepoIdentity {
    RepoIdentity {
        owner: String::from(owner),
        project: String::from(project),
        revision: String::from(revision),
    }
}

#[test]
fn sanitize_replaces_separators() {
    assert_eq!(sanitize("owner/project"), "owner_project");
    assert_eq!(sanitize("no-separator"), "no-separator");
    assert_eq!(sanitize("a/b/c"), "a_b_c");
    assert_eq!(sanitize(""), "");
}

#[test]
fn cache_file_name_is_filesystem_safe() {
    let id = identity("owner", "proj", "HEAD");
    assert_eq!(cache_file_name(&id), "owner_proj_HEAD.json");
}

#[test]
fn listing_url_names_the_tree_endpoint() {
    let id = identity("owner", "proj", "HEAD");
    assert_eq!(
        listing_url(&id),
        "https://api.github.com/repos/owner/proj/git/tree-file-list/HEAD"
    );
}

#[test]
fn decode_accepts_a_json_string_array() {
    let r = decode_manifest("[\"a.txt\",\"docs/b.md\"]").unwrap();
    assert_eq!(r, vec![String::from("a.txt"), String::from("docs/b.md")]);
}

#[test]
fn decode_rejects_non_arrays() {
    assert_eq!(decode_manifest("{\"a\":1}"), Err(DlError::Parse));
    assert_eq!(decode_manifest("\"just a string\""), Err(DlError::Parse));
    assert_eq!(decode_manifest("not json"), Err(DlError::Parse));
}

#[test]
fn decode_rejects_arrays_of_non_strings() {
    assert_eq!(decode_manifest("[1,2,3]"), Err(DlError::Parse));
    assert_eq!(decode_manifest("[\"a\",7]"), Err(DlError::Parse));
}

#[test]
fn encode_produces_a_json_string_array() {
    let paths = vec![String::from("a.txt"), String::from("docs/b.md")];
    assert_eq!(encode_manifest(&paths), "[\"a.txt\",\"docs/b.md\"]");
}

#[test]
fn persisted_record_reads_back_identically() {
    let remote_body = "[\"a.txt\",\"b.bin\",\"docs/readme.md\"]";
    let (files, record) = manifest_from_remote_text(remote_body).unwrap();
    let reread = decode_manifest(&record).unwrap();
    assert_eq!(reread, files);
}

#[test]
fn remote_parse_failure_is_a_parse_error() {
    assert_eq!(
        manifest_from_remote_text("{\"message\":\"Not Found\"}"),
        Err(DlError::Parse)
    );
}

#[test]
fn cache_lookup_policy() {
    assert_eq!(plan_manifest_fetch(true), ManifestSource::Cache);
    assert_eq!(plan_manifest_fetch(false), ManifestSource::Remote);
}
