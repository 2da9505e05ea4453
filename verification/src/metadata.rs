//! The record that says from which repository, commit and path an IDL can be reproduced.
use vstd::prelude::*;
use crate::json::{to_vec_pretty, JsonField, JsonValue, JsonValueView};
use crate::path::{ensure_repo_relative, PathFault};
use crate::text::{is_blank, text_equal};

verus! {

/// Where the source of an on-chain IDL is found.
#[derive(Debug, Clone, PartialEq, Eq)]
pub struct IdlVerificationMetadata {
    pub kind: String,
    pub version: u8,
    pub repo_url: String,
    pub commit: String,
    pub path: String,
}

/// What is wrong with a record.
#[derive(Debug, Clone, Copy, PartialEq, Eq, Structural)]
pub enum MetadataFault {
    /// The kind is not `idl-verification`.
    WrongKind,
    /// The version is not the first.
    UnsupportedVersion,
    BlankRepoUrl,
    BlankCommit,
    BlankPath,
    Path(PathFault),
}

/// The first thing wrong with a record of these fields.
pub open spec fn metadata_fault(
    kind: Seq<char>,
    version: u8,
    repo_url: Seq<char>,
    commit: Seq<char>,
    path: Seq<char>,
) -> Option<MetadataFault> {
    if kind != "idl-verification"@ {
        Some(MetadataFault::WrongKind)
    } else if version != 1 {
        Some(MetadataFault::UnsupportedVersion)
    } else if crate::text::blank(repo_url) {
        Some(MetadataFault::BlankRepoUrl)
    } else if crate::text::blank(commit) {
        Some(MetadataFault::BlankCommit)
    } else if crate::text::blank(path) {
        Some(MetadataFault::BlankPath)
    } else {
        match crate::path::path_fault(path) {
            Some(fault) => Some(MetadataFault::Path(fault)),
            None => None,
        }
    }
}

impl IdlVerificationMetadata {
    /// The fields of the JSON object that stands for this record, in order.
    pub open spec fn json_fields(self) -> Seq<(Seq<char>, JsonValueView)> {
        seq![
            ("kind"@, JsonValueView::Text(self.kind@)),
            ("version"@, JsonValueView::Number(self.version)),
            ("repo_url"@, JsonValueView::Text(self.repo_url@)),
            ("commit"@, JsonValueView::Text(self.commit@)),
            ("path"@, JsonValueView::Text(self.path@)),
        ]
    }

    /// The JSON text that stands for this record.
    pub open spec fn json(self) -> Seq<u8> {
        crate::json::pretty_json(self.json_fields())
    }

    /// The first thing wrong with this record.
    pub open spec fn fault(self) -> Option<MetadataFault> {
        metadata_fault(self.kind@, self.version, self.repo_url@, self.commit@, self.path@)
    }

    /// `made` is what comes of making a record of these fields.
    pub open spec fn made_of(
        made: Result<Self, MetadataFault>,
        repo_url: Seq<char>,
        commit: Seq<char>,
        path: Seq<char>,
    ) -> bool {
        match made {
            Ok(metadata) => {
                &&& metadata.kind@ == "idl-verification"@
                &&& metadata.version == 1
                &&& metadata.repo_url@ == repo_url
                &&& metadata.commit@ == commit
                &&& metadata.path@ == path
                &&& metadata.fault() is None
            },
            Err(fault) => metadata_fault("idl-verification"@, 1, repo_url, commit, path) == Some(
                fault,
            ),
        }
    }

    /// What checking this record hands on: the record itself where it is valid.
    pub open spec fn handed_on(self) -> Result<Self, MetadataFault> {
        match self.fault() {
            Some(fault) => Err(fault),
            None => Ok(self),
        }
    }

    /// What writing this record gives: its JSON text where it is valid.
    pub open spec fn written(self) -> Result<Seq<u8>, MetadataFault> {
        match self.fault() {
            Some(fault) => Err(fault),
            None => Ok(self.json()),
        }
    }

    /// A record of the current kind and version with these fields, where they are valid.
    pub fn new(repo_url: String, commit: String, path: String) -> (made: Result<
        Self,
        MetadataFault,
    >)
        ensures
            match made {
                Ok(metadata) => {
                    &&& metadata.kind@ == "idl-verification"@
                    &&& metadata.version == 1
                    &&& metadata.repo_url == repo_url
                    &&& metadata.commit == commit
                    &&& metadata.path == path
                    &&& metadata.fault() is None
                },
                Err(fault) => metadata_fault(
                    "idl-verification"@,
                    1,
                    repo_url@,
                    commit@,
                    path@,
                ) == Some(fault),
            },
            Self::made_of(made, repo_url@, commit@, path@),
    {
        let metadata = Self {
            kind: "idl-verification".to_owned(),
            version: 1,
            repo_url,
            commit,
            path,
        };
        metadata.validate()?;
        Ok(metadata)
    }

    /// Checks the kind, the version, that nothing is blank, and that the path stays inside the
    /// repository.
    pub fn validate(&self) -> (checked: Result<(), MetadataFault>)
        ensures
            match checked {
                Ok(()) => self.fault() is None,
                Err(fault) => self.fault() == Some(fault),
            },
    {
        if !text_equal(&self.kind, "idl-verification") {
            return Err(MetadataFault::WrongKind);
        }
        if self.version != 1 {
            return Err(MetadataFault::UnsupportedVersion);
        }
        if is_blank(&self.repo_url) {
            return Err(MetadataFault::BlankRepoUrl);
        }
        if is_blank(&self.commit) {
            return Err(MetadataFault::BlankCommit);
        }
        if is_blank(&self.path) {
            return Err(MetadataFault::BlankPath);
        }
        match ensure_repo_relative(&self.path) {
            Ok(()) => Ok(()),
            Err(fault) => Err(MetadataFault::Path(fault)),
        }
    }

    /// Hands a record that was read from somewhere on, where it is valid.
    pub fn validated(self) -> (checked: Result<Self, MetadataFault>)
        ensures
            match checked {
                Ok(metadata) => metadata == self && self.fault() is None,
                Err(fault) => self.fault() == Some(fault),
            },
            checked == self.handed_on(),
    {
        self.validate()?;
        Ok(self)
    }
}

impl IdlVerificationMetadata {
    /// Writes this record as JSON text, where it is valid. The text stands for no other record.
    pub fn to_pretty_json_bytes(&self) -> (written: Result<Vec<u8>, MetadataFault>)
        ensures
            match written {
                Ok(text) => {
                    &&& self.fault() is None
                    &&& text@ == self.json()
                    &&& forall|other: Self| #[trigger]
                        other.json() == text@ ==> {
                            &&& other.kind@ == self.kind@
                            &&& other.version == self.version
                            &&& other.repo_url@ == self.repo_url@
                            &&& other.commit@ == self.commit@
                            &&& other.path@ == self.path@
                        }
                },
                Err(fault) => self.fault() == Some(fault),
            },
            match written {
                Ok(text) => self.written() == Ok::<_, MetadataFault>(text@),
                Err(fault) => self.written() == Err::<Seq<u8>, _>(fault),
            },
    {
        self.validate()?;
        let fields = vec![
            JsonField { name: "kind".to_owned(), value: JsonValue::Text(self.kind.clone()) },
            JsonField { name: "version".to_owned(), value: JsonValue::Number(self.version) },
            JsonField { name: "repo_url".to_owned(), value: JsonValue::Text(self.repo_url.clone()) },
            JsonField { name: "commit".to_owned(), value: JsonValue::Text(self.commit.clone()) },
            JsonField { name: "path".to_owned(), value: JsonValue::Text(self.path.clone()) },
        ];
        assert(fields@.map_values(|f: JsonField| f@) =~= self.json_fields());
        let text = to_vec_pretty(fields).unwrap();
        proof {
            lemma_json_names_differ(*self);
            assert forall|other: Self| #[trigger] other.json() == text@ implies {
                &&& other.kind@ == self.kind@
                &&& other.version == self.version
                &&& other.repo_url@ == self.repo_url@
                &&& other.commit@ == self.commit@
                &&& other.path@ == self.path@
            } by {
                lemma_json_names_differ(other);
                let there = other.json_fields();
                let here = self.json_fields();
                assert(there[0] == here[0]);
                assert(there[1] == here[1]);
                assert(there[2] == here[2]);
                assert(there[3] == here[3]);
                assert(there[4] == here[4]);
            }
        }
        Ok(text)
    }
}

/// The fields of a record's JSON object have different names.
proof fn lemma_json_names_differ(metadata: IdlVerificationMetadata)
    ensures
        crate::json::names_differ(metadata.json_fields()),
{
    reveal_strlit("kind");
    reveal_strlit("version");
    reveal_strlit("repo_url");
    reveal_strlit("commit");
    reveal_strlit("path");
    assert("kind"@.len() == 4 && "kind"@[0] == 'k');
    assert("version"@.len() == 7);
    assert("repo_url"@.len() == 8);
    assert("commit"@.len() == 6);
    assert("path"@.len() == 4 && "path"@[0] == 'p');
}

/// `made` is the record that command line flags ask for.
pub open spec fn asked_by_flags(
    made: Result<Option<IdlVerificationMetadata>, MetadataFault>,
    repo_url: Seq<char>,
    commit: Seq<char>,
    path: Option<&str>,
) -> bool {
    match path {
        None => made matches Ok(asked) && asked is None,
        Some(path) => match made {
            Ok(Some(metadata)) => IdlVerificationMetadata::made_of(
                Ok(metadata),
                repo_url,
                commit,
                path@,
            ),
            Ok(None) => false,
            Err(fault) => IdlVerificationMetadata::made_of(Err(fault), repo_url, commit, path@),
        },
    }
}

/// The record that command line flags ask for: none without a path.
pub fn idl_metadata_from_cli(repo_url: &str, commit: &str, path: Option<&str>) -> (made: Result<
    Option<IdlVerificationMetadata>,
    MetadataFault,
>)
    ensures
        match made {
            Ok(None) => path is None,
            Ok(Some(metadata)) => {
                &&& path is Some
                &&& metadata.kind@ == "idl-verification"@
                &&& metadata.version == 1
                &&& metadata.repo_url@ == repo_url@
                &&& metadata.commit@ == commit@
                &&& metadata.path@ == path->0@
                &&& metadata.fault() is None
            },
            Err(fault) => path is Some && metadata_fault(
                "idl-verification"@,
                1,
                repo_url@,
                commit@,
                path->0@,
            ) == Some(fault),
        },
        asked_by_flags(made, repo_url@, commit@, path),
{
    match path {
        Some(path) => match IdlVerificationMetadata::new(
            repo_url.to_owned(),
            commit.to_owned(),
            path.to_owned(),
        ) {
            Ok(metadata) => Ok(Some(metadata)),
            Err(fault) => Err(fault),
        },
        None => Ok(None),
    }
}

/// The path of a valid record can always be resolved inside a repository.
pub proof fn law_valid_path_resolves(metadata: IdlVerificationMetadata)
    requires
        metadata.fault() is None,
    ensures
        crate::path::path_fault(metadata.path@) is None,
{
}

/// A path that leads out of the repository never makes a valid record, whatever the rest is.
pub proof fn law_escaping_path_is_refused(metadata: IdlVerificationMetadata)
    requires
        crate::path::has_parent(metadata.path@),
    ensures
        metadata.fault() is Some,
{
}

/// A record of the current kind and version is valid where its repository, its commit and its
/// path each hold a character that is not white space, and the path neither starts at the root
/// nor has a component that reads `..`. Nothing else is asked: not how long a field is, nor
/// what else it holds.
pub proof fn law_sound_record_is_valid(
    metadata: IdlVerificationMetadata,
    in_repo_url: int,
    in_commit: int,
    in_path: int,
)
    requires
        metadata.kind@ == "idl-verification"@,
        metadata.version == 1,
        0 <= in_repo_url < metadata.repo_url@.len(),
        !crate::text::white_space(metadata.repo_url@[in_repo_url]),
        0 <= in_commit < metadata.commit@.len(),
        !crate::text::white_space(metadata.commit@[in_commit]),
        0 <= in_path < metadata.path@.len(),
        !crate::text::white_space(metadata.path@[in_path]),
        metadata.path@[0] != '/',
        forall|at: int|
            0 <= at < metadata.path@.len() - 1 && #[trigger] metadata.path@[at] == '.'
                && metadata.path@[at + 1] == '.' ==> {
                ||| at > 0 && metadata.path@[at - 1] != '/'
                ||| at + 2 < metadata.path@.len() && metadata.path@[at + 2] != '/'
            },
    ensures
        metadata.fault() is None,
{
    crate::path::law_path_without_parent_is_accepted(metadata.path@);
}

/// A valid record is of the current kind and version, none of its texts is white space alone,
/// and its path neither starts at the root nor has a component that reads `..`.
pub proof fn law_valid_record_is_sound(metadata: IdlVerificationMetadata, at: int)
    requires
        metadata.fault() is None,
    ensures
        metadata.kind@ == "idl-verification"@,
        metadata.version == 1,
        exists|i: int|
            0 <= i < metadata.repo_url@.len() && !crate::text::white_space(
                #[trigger] metadata.repo_url@[i],
            ),
        exists|i: int|
            0 <= i < metadata.commit@.len() && !crate::text::white_space(
                #[trigger] metadata.commit@[i],
            ),
        exists|i: int|
            0 <= i < metadata.path@.len() && !crate::text::white_space(
                #[trigger] metadata.path@[i],
            ),
        metadata.path@[0] != '/',
        0 <= at < metadata.path@.len() - 1 && metadata.path@[at] == '.' && metadata.path@[at + 1]
            == '.' ==> {
            ||| at > 0 && metadata.path@[at - 1] != '/'
            ||| at + 2 < metadata.path@.len() && metadata.path@[at + 2] != '/'
        },
{
    if 0 <= at < metadata.path@.len() - 1 && metadata.path@[at] == '.' && metadata.path@[at + 1]
        == '.' {
        assert(!crate::path::parent_at(metadata.path@, at));
    }
}

/// What is wrong with a record is told in the order of kind, version, repository, commit and
/// path: each fault is told exactly where everything before it is in order.
pub proof fn law_first_fault_of_record_is_told(metadata: IdlVerificationMetadata)
    ensures
        metadata.fault() == Some(MetadataFault::WrongKind) <==> metadata.kind@
            != "idl-verification"@,
        metadata.kind@ == "idl-verification"@ ==> (metadata.fault() == Some(
            MetadataFault::UnsupportedVersion,
        ) <==> metadata.version != 1),
        metadata.kind@ == "idl-verification"@ && metadata.version == 1 ==> {
            let white = |text: Seq<char>|
                forall|i: int| 0 <= i < text.len() ==> crate::text::white_space(#[trigger] text[i]);
            &&& metadata.fault() == Some(MetadataFault::BlankRepoUrl) <==> white(metadata.repo_url@)
            &&& !white(metadata.repo_url@) ==> (metadata.fault() == Some(
                MetadataFault::BlankCommit,
            ) <==> white(metadata.commit@))
            &&& !white(metadata.repo_url@) && !white(metadata.commit@) ==> (metadata.fault()
                == Some(MetadataFault::BlankPath) <==> white(metadata.path@))
            &&& !white(metadata.repo_url@) && !white(metadata.commit@) && !white(metadata.path@)
                ==> metadata.fault() == match crate::path::path_fault(metadata.path@) {
                Some(fault) => Some(MetadataFault::Path(fault)),
                None => None,
            }
        },
{
}

/// The JSON object of a record has five members, which carry its fields unchanged under their
/// names and in their order.
pub proof fn law_json_carries_fields(metadata: IdlVerificationMetadata)
    ensures
        exists|fields: Seq<(Seq<char>, JsonValueView)>|
            {
                &&& metadata.json() == #[trigger] crate::json::pretty_json(fields)
                &&& fields.len() == 5
                &&& fields[0] == ("kind"@, JsonValueView::Text(metadata.kind@))
                &&& fields[1] == ("version"@, JsonValueView::Number(metadata.version))
                &&& fields[2] == ("repo_url"@, JsonValueView::Text(metadata.repo_url@))
                &&& fields[3] == ("commit"@, JsonValueView::Text(metadata.commit@))
                &&& fields[4] == ("path"@, JsonValueView::Text(metadata.path@))
            },
{
    assert(metadata.json() == crate::json::pretty_json(metadata.json_fields()));
}

/// A record is made of any repository, commit and path that hold more than white space, where
/// the path neither starts at the root nor has a component that reads `..`, and it holds them
/// unchanged. Flags ask for that record where they give a path, and for none where they do not.
pub proof fn law_record_is_made_of_sound_fields(
    made: Result<IdlVerificationMetadata, MetadataFault>,
    asked: Result<Option<IdlVerificationMetadata>, MetadataFault>,
    repo_url: Seq<char>,
    commit: Seq<char>,
    path: &str,
    in_repo_url: int,
    in_commit: int,
    in_path: int,
)
    requires
        0 <= in_repo_url < repo_url.len() && !crate::text::white_space(repo_url[in_repo_url]),
        0 <= in_commit < commit.len() && !crate::text::white_space(commit[in_commit]),
        0 <= in_path < path@.len() && !crate::text::white_space(path@[in_path]),
        path@[0] != '/',
        forall|at: int|
            0 <= at < path@.len() - 1 && #[trigger] path@[at] == '.' && path@[at + 1] == '.' ==> {
                ||| at > 0 && path@[at - 1] != '/'
                ||| at + 2 < path@.len() && path@[at + 2] != '/'
            },
    ensures
        IdlVerificationMetadata::made_of(made, repo_url, commit, path@) ==> {
            &&& made matches Ok(metadata)
            &&& metadata.kind@ == "idl-verification"@
            &&& metadata.version == 1
            &&& metadata.repo_url@ == repo_url
            &&& metadata.commit@ == commit
            &&& metadata.path@ == path@
        },
        asked_by_flags(asked, repo_url, commit, Some(path)) ==> {
            &&& asked matches Ok(record)
            &&& record matches Some(metadata)
            &&& metadata.kind@ == "idl-verification"@
            &&& metadata.version == 1
            &&& metadata.repo_url@ == repo_url
            &&& metadata.commit@ == commit
            &&& metadata.path@ == path@
        },
        asked_by_flags(asked, repo_url, commit, None) ==> asked == Ok::<_, MetadataFault>(
            None::<IdlVerificationMetadata>,
        ),
{
    crate::path::law_path_without_parent_is_accepted(path@);
}

/// A record is made of no repository, commit or path that is white space alone, and of no path
/// that starts at the root or has a component that reads `..`.
pub proof fn law_record_is_not_made_of_faulty_fields(
    made: Result<IdlVerificationMetadata, MetadataFault>,
    repo_url: Seq<char>,
    commit: Seq<char>,
    path: Seq<char>,
    at: int,
)
    requires
        IdlVerificationMetadata::made_of(made, repo_url, commit, path),
        ({
            ||| forall|i: int|
                0 <= i < repo_url.len() ==> crate::text::white_space(#[trigger] repo_url[i])
            ||| forall|i: int|
                0 <= i < commit.len() ==> crate::text::white_space(#[trigger] commit[i])
            ||| forall|i: int|
                0 <= i < path.len() ==> crate::text::white_space(#[trigger] path[i])
            ||| path[0] == '/'
            ||| {
                &&& 0 <= at < path.len() - 1
                &&& path[at] == '.' && path[at + 1] == '.'
                &&& at == 0 || path[at - 1] == '/'
                &&& at + 2 == path.len() || path[at + 2] == '/'
            }
        }),
    ensures
        made is Err,
{
    assert(crate::path::parent_at(path, at) ==> crate::path::has_parent(path));
}

/// Exactly the valid records are written, however long they are, and what is written is the
/// JSON object of all five fields.
pub proof fn law_valid_records_are_written(metadata: IdlVerificationMetadata)
    ensures
        metadata.fault() is None <==> metadata.written() is Ok,
        metadata.fault() is None ==> metadata.written() == Ok::<_, MetadataFault>(
            crate::json::pretty_json(
                seq![
                    ("kind"@, JsonValueView::Text(metadata.kind@)),
                    ("version"@, JsonValueView::Number(metadata.version)),
                    ("repo_url"@, JsonValueView::Text(metadata.repo_url@)),
                    ("commit"@, JsonValueView::Text(metadata.commit@)),
                    ("path"@, JsonValueView::Text(metadata.path@)),
                ],
            ),
        ),
        metadata.fault() matches Some(fault) ==> metadata.written() == Err::<Seq<u8>, _>(fault),
{
}

/// A record that was read is handed on unchanged where it is sound, however long its fields are.
pub proof fn law_sound_record_is_handed_on(
    metadata: IdlVerificationMetadata,
    in_repo_url: int,
    in_commit: int,
    in_path: int,
)
    requires
        metadata.kind@ == "idl-verification"@,
        metadata.version == 1,
        0 <= in_repo_url < metadata.repo_url@.len(),
        !crate::text::white_space(metadata.repo_url@[in_repo_url]),
        0 <= in_commit < metadata.commit@.len(),
        !crate::text::white_space(metadata.commit@[in_commit]),
        0 <= in_path < metadata.path@.len(),
        !crate::text::white_space(metadata.path@[in_path]),
        metadata.path@[0] != '/',
        forall|at: int|
            0 <= at < metadata.path@.len() - 1 && #[trigger] metadata.path@[at] == '.'
                && metadata.path@[at + 1] == '.' ==> {
                ||| at > 0 && metadata.path@[at - 1] != '/'
                ||| at + 2 < metadata.path@.len() && metadata.path@[at + 2] != '/'
            },
    ensures
        metadata.handed_on() == Ok::<_, MetadataFault>(metadata),
        metadata.written() == Ok::<_, MetadataFault>(metadata.json()),
{
    law_sound_record_is_valid(metadata, in_repo_url, in_commit, in_path);
}

/// A record that is not valid is neither handed on nor written.
pub proof fn law_faulty_record_is_kept_back(metadata: IdlVerificationMetadata)
    requires
        metadata.kind@ != "idl-verification"@ || metadata.version != 1 || crate::path::has_parent(
            metadata.path@,
        ) || crate::text::blank(metadata.repo_url@) || crate::text::blank(metadata.commit@)
            || crate::text::blank(metadata.path@),
    ensures
        metadata.handed_on() is Err,
        metadata.written() is Err,
{
}

} // verus!
