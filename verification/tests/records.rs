use idl_verification::address::Address;
use idl_verification::metadata::{
    idl_metadata_from_cli, IdlVerificationMetadata, MetadataFault,
};
use idl_verification::pairing::{
    compare_executable_verification_pair, executable_verification_pair_line,
    validate_executable_verification_identity, validate_executable_verification_pair,
    IdlExecutableVerificationMatch, OtterBuildParams, PairFault,
};
use idl_verification::path::{ensure_repo_relative, resolve_repo_path, PathFault};
use idl_verification::text::{characters, is_blank, is_white_space, text_equal};
use std::str::FromStr;

fn address(text: &str) -> Address {
    Address { bytes: solana_address::Address::from_str(text).unwrap().to_bytes() }
}

fn valid_metadata() -> IdlVerificationMetadata {
    IdlVerificationMetadata::new(
        "https://github.com/example/program".to_string(),
        "0123456789abcdef".to_string(),
        "target/idl/program.json".to_string(),
    )
    .unwrap()
}

#[test]
fn cli_idl_flags_are_optional_but_complete_when_present() {
    let none = idl_metadata_from_cli("https://example.com/repo", "abc", None).unwrap();
    assert!(none.is_none());

    let missing_path = idl_metadata_from_cli("https://example.com/repo", "abc", Some(""));
    assert!(missing_path.is_err());

    let metadata =
        idl_metadata_from_cli("https://example.com/repo", "abc", Some("idl/program.json"))
            .unwrap()
            .expect("expected IDL metadata");
    assert_eq!(metadata.path, "idl/program.json");
}

#[test]
fn resolves_repo_relative_paths() {
    let root = "/tmp/repo";
    assert_eq!(
        resolve_repo_path(root, "target/idl/program.json").unwrap(),
        "/tmp/repo/target/idl/program.json"
    );
    assert!(resolve_repo_path(root, "/tmp/idl.json").is_err());
    assert!(resolve_repo_path(root, "../idl.json").is_err());
}

#[test]
fn resolved_paths_are_those_of_the_standard_library() {
    for root in ["", "/", "repo", "repo/", "/tmp/repo", "/tmp/repo/"] {
        for value in ["a", "a/b", "./a", "a/", ".", "...", "a..b/c", "a/./b", ".a", "a.", "a//b"] {
            let joined = std::path::Path::new(root).join(value);
            assert_eq!(resolve_repo_path(root, value).unwrap(), joined.to_str().unwrap());
        }
    }
}

#[test]
fn path_faults_are_told_apart() {
    assert_eq!(ensure_repo_relative(""), Err(PathFault::Empty));
    for value in ["/", "/a", "//a", "/.."] {
        assert_eq!(ensure_repo_relative(value), Err(PathFault::NotRelative));
    }
    for value in ["..", "../a", "a/..", "a/../b", "./..", "a//..", "a/../", ".../.."] {
        assert_eq!(ensure_repo_relative(value), Err(PathFault::Escapes));
    }
    for value in ["...", "..a", "a..", "a/..b/c", "\u{e9}/idl.json", "a..b"] {
        assert_eq!(ensure_repo_relative(value), Ok(()));
    }
}

#[test]
fn path_components_are_those_of_the_standard_library() {
    let pieces = ["", ".", "..", "...", "a", "b.json"];
    for first in pieces {
        for second in pieces {
            for third in pieces {
                let value = format!("{first}/{second}/{third}");
                let path = std::path::Path::new(&value);
                let escapes =
                    path.components().any(|c| matches!(c, std::path::Component::ParentDir));
                let expected = if path.is_absolute() {
                    Err(PathFault::NotRelative)
                } else if escapes {
                    Err(PathFault::Escapes)
                } else {
                    Ok(())
                };
                assert_eq!(ensure_repo_relative(&value), expected, "{value}");
            }
        }
    }
}

#[test]
fn white_space_is_that_of_the_standard_library() {
    for code in 0..=0x10ffff_u32 {
        if let Some(c) = char::from_u32(code) {
            assert_eq!(is_white_space(c), c.is_whitespace(), "{code:x}");
        }
    }
}

#[test]
fn blank_text_trims_to_nothing() {
    for text in ["", " ", "\t\n", "\u{3000}\u{a0}", " a ", "a", "\u{200b}", "\u{e9}"] {
        assert_eq!(is_blank(text), text.trim().is_empty(), "{text:?}");
    }
}

#[test]
fn texts_compare_by_their_characters() {
    assert!(text_equal("", ""));
    assert!(text_equal("h\u{e9}llo", "h\u{e9}llo"));
    assert!(!text_equal("hello", "h\u{e9}llo"));
    assert!(!text_equal("abc", "ab"));
    assert_eq!(characters("a\u{1f600}b"), vec!['a', '\u{1f600}', 'b']);
}

#[test]
fn each_record_fault_has_its_input() {
    let mut record = valid_metadata();
    assert_eq!(record.validate(), Ok(()));
    record.kind = "other".to_string();
    assert_eq!(record.validate(), Err(MetadataFault::WrongKind));

    let mut record = valid_metadata();
    record.version = 2;
    assert_eq!(record.validate(), Err(MetadataFault::UnsupportedVersion));

    let mut record = valid_metadata();
    record.repo_url = " \t".to_string();
    assert_eq!(record.validate(), Err(MetadataFault::BlankRepoUrl));

    let mut record = valid_metadata();
    record.commit = String::new();
    assert_eq!(record.validate(), Err(MetadataFault::BlankCommit));

    let mut record = valid_metadata();
    record.path = "\n".to_string();
    assert_eq!(record.validate(), Err(MetadataFault::BlankPath));

    let mut record = valid_metadata();
    record.path = "/idl.json".to_string();
    assert_eq!(record.validate(), Err(MetadataFault::Path(PathFault::NotRelative)));

    let mut record = valid_metadata();
    record.path = "idl/../../idl.json".to_string();
    assert_eq!(record.validate(), Err(MetadataFault::Path(PathFault::Escapes)));
    assert_eq!(record.validated(), Err(MetadataFault::Path(PathFault::Escapes)));
    assert_eq!(valid_metadata().validated(), Ok(valid_metadata()));
}

#[test]
fn faults_are_reported_in_order() {
    let record = IdlVerificationMetadata {
        kind: "x".to_string(),
        version: 0,
        repo_url: String::new(),
        commit: String::new(),
        path: String::new(),
    };
    assert_eq!(record.validate(), Err(MetadataFault::WrongKind));
    assert_eq!(
        IdlVerificationMetadata::new(String::new(), String::new(), String::new()),
        Err(MetadataFault::BlankRepoUrl)
    );
}

#[test]
fn record_is_written_as_indented_json() {
    let text = valid_metadata().to_pretty_json_bytes().unwrap();
    let expected = "{\n  \"kind\": \"idl-verification\",\n  \"version\": 1,\n  \"repo_url\": \
                    \"https://github.com/example/program\",\n  \"commit\": \
                    \"0123456789abcdef\",\n  \"path\": \"target/idl/program.json\"\n}";
    assert_eq!(String::from_utf8(text).unwrap(), expected);
}

#[test]
fn json_text_tells_records_apart() {
    let write = |repo_url: &str, commit: &str| {
        IdlVerificationMetadata::new(repo_url.to_string(), commit.to_string(), "a".to_string())
            .unwrap()
            .to_pretty_json_bytes()
            .unwrap()
    };
    assert_eq!(write("x", "y"), write("x", "y"));
    assert_ne!(write("x", "y"), write("y", "x"));
    assert_ne!(write("x\",\n  \"commit\": \"y", "z"), write("x", "y"));
    assert_ne!(write("x\n", "y"), write("x\\n", "y"));
}

#[test]
fn invalid_record_is_not_written() {
    let mut record = valid_metadata();
    record.version = 3;
    assert_eq!(record.to_pretty_json_bytes(), Err(MetadataFault::UnsupportedVersion));
}

#[test]
fn written_json_holds_the_fields() {
    let record = IdlVerificationMetadata::new(
        "https://example.com/\"quoted\"\\".to_string(),
        "line\nbreak \u{e9}".to_string(),
        "idl/\u{1f600}.json".to_string(),
    )
    .unwrap();
    let text = record.to_pretty_json_bytes().unwrap();
    let value: serde_json::Value = serde_json::from_slice(&text).unwrap();
    let read = IdlVerificationMetadata {
        kind: value["kind"].as_str().unwrap().to_string(),
        version: value["version"].as_u64().unwrap() as u8,
        repo_url: value["repo_url"].as_str().unwrap().to_string(),
        commit: value["commit"].as_str().unwrap().to_string(),
        path: value["path"].as_str().unwrap().to_string(),
    };
    assert_eq!(read, record);
}

fn build_params(program: Address, authority: Address) -> OtterBuildParams {
    let metadata = valid_metadata();
    OtterBuildParams {
        address: program,
        signer: authority,
        version: "0.0.0".to_string(),
        git_url: metadata.repo_url,
        commit: metadata.commit,
        args: vec![],
        deployed_slot: 0,
        bump: 0,
    }
}

#[test]
fn validates_executable_pda_pairing() {
    let program = address("11111111111111111111111111111111");
    let authority = address("Sysvar1111111111111111111111111111111111111");
    let metadata = valid_metadata();
    let params = build_params(program, authority);
    let pair = compare_executable_verification_pair(&params, &metadata);
    assert!(pair.success());
    assert!(validate_executable_verification_pair(&params, &program, &authority, &metadata).is_ok());

    let mut mismatched = metadata.clone();
    mismatched.commit = "different".to_string();
    let pair = compare_executable_verification_pair(&params, &mismatched);
    assert!(pair.repo_url_matches);
    assert!(!pair.commit_matches);
    assert!(
        validate_executable_verification_pair(&params, &program, &authority, &mismatched).is_err()
    );
}

#[test]
fn each_pair_fault_has_its_input() {
    let program = address("11111111111111111111111111111111");
    let authority = address("Sysvar1111111111111111111111111111111111111");
    let metadata = valid_metadata();
    let params = build_params(program, authority);
    assert_eq!(
        validate_executable_verification_identity(&params, &authority, &authority),
        Err(PairFault::WrongProgram)
    );
    assert_eq!(
        validate_executable_verification_identity(&params, &program, &program),
        Err(PairFault::WrongSigner)
    );
    assert_eq!(
        validate_executable_verification_pair(&params, &program, &program, &metadata),
        Err(PairFault::WrongSigner)
    );
    let mut other = metadata.clone();
    other.repo_url = "https://example.com".to_string();
    assert_eq!(
        validate_executable_verification_pair(&params, &program, &authority, &other),
        Err(PairFault::RepoUrlDiffers)
    );
    let mut other = metadata.clone();
    other.commit = "fedcba".to_string();
    assert_eq!(
        validate_executable_verification_pair(&params, &program, &authority, &other),
        Err(PairFault::CommitDiffers)
    );
}

#[test]
fn pair_line_tells_success() {
    let both = IdlExecutableVerificationMatch { repo_url_matches: true, commit_matches: true };
    let one = IdlExecutableVerificationMatch { repo_url_matches: true, commit_matches: false };
    assert_eq!(
        executable_verification_pair_line(&both),
        "IDL Verification matches Program Verification repo and commit: success ✅"
    );
    assert_eq!(
        executable_verification_pair_line(&one),
        "IDL Verification matches Program Verification repo and commit: failed ❌"
    );
}
