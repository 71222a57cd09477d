use vstd::prelude::*;

use crate::error::PluginError;
use crate::json::{
    field, find_member, get_text, get_text_list, json_document, member, parse_json, text_field,
    text_list_field, Json,
};
use crate::text::owned;

verus! {

/// A permission a plugin asks for.
#[derive(Debug)]
pub struct PluginPermission {
    pub type_: String,
}

/// An installed plugin, as its folder and its `info.json` describe it.
#[derive(Debug)]
pub struct Plugin {
    pub folder: String,
    pub name: Option<String>,
    pub description: Option<String>,
    pub homepage: Option<String>,
    pub authors: Vec<String>,
    pub tags: Vec<String>,
    pub version: Option<String>,
    pub licence: Option<String>,
    pub permissions: Vec<PluginPermission>,
}

/// What a plugin holds, as plain text.
pub ghost struct PluginView {
    pub folder: Seq<char>,
    pub name: Option<Seq<char>>,
    pub description: Option<Seq<char>>,
    pub homepage: Option<Seq<char>>,
    pub authors: Seq<Seq<char>>,
    pub tags: Seq<Seq<char>>,
    pub version: Option<Seq<char>>,
    pub licence: Option<Seq<char>>,
    pub permissions: Seq<Seq<char>>,
}

pub open spec fn opt_text(o: Option<String>) -> Option<Seq<char>> {
    match o {
        Some(s) => Some(s@),
        None => None,
    }
}

pub open spec fn texts(v: Seq<String>) -> Seq<Seq<char>> {
    v.map_values(|s: String| s@)
}

pub open spec fn permission_texts(v: Seq<PluginPermission>) -> Seq<Seq<char>> {
    v.map_values(|p: PluginPermission| p.type_@)
}

impl View for Plugin {
    type V = PluginView;

    open spec fn view(&self) -> PluginView {
        PluginView {
            folder: self.folder@,
            name: opt_text(self.name),
            description: opt_text(self.description),
            homepage: opt_text(self.homepage),
            authors: texts(self.authors@),
            tags: texts(self.tags@),
            version: opt_text(self.version),
            licence: opt_text(self.licence),
            permissions: permission_texts(self.permissions@),
        }
    }
}

pub open spec fn plugin_views(v: Seq<Plugin>) -> Seq<PluginView> {
    v.map_values(|p: Plugin| p@)
}

/// The `type` of a permission entry, where the entry is an object whose
/// `type` is a string.
pub open spec fn permission_type(item: Json) -> Option<Seq<char>> {
    match item {
        Json::Object(entries) => match member(entries@, "type"@) {
            Some(Json::Str(t)) => Some(t@),
            _ => None,
        },
        _ => None,
    }
}

/// The permissions a document declares: none where `permissions` is not an
/// array, `None` where an entry of the array has no `type` string.
pub open spec fn declared_permissions(doc: Json) -> Option<Seq<Seq<char>>> {
    match field(doc, "permissions"@) {
        Some(Json::Array(items)) => if forall|i: int|
            0 <= i < items@.len() ==> #[trigger] permission_type(items@[i]) is Some {
            Some(Seq::new(items@.len(), |i: int| permission_type(items@[i])->Some_0))
        } else {
            None
        },
        _ => Some(seq![]),
    }
}

/// The plugin in `folder` that a metadata document describes; `None` where
/// its permissions are malformed. Optional texts that are missing or not
/// strings are absent, and list members that are not strings are left out.
pub open spec fn plugin_from_metadata(folder: Seq<char>, doc: Json) -> Option<PluginView> {
    match declared_permissions(doc) {
        Some(permissions) => Some(
            PluginView {
                folder,
                name: text_field(doc, "name"@),
                description: text_field(doc, "description"@),
                homepage: text_field(doc, "homepage"@),
                authors: text_list_field(doc, "authors"@),
                tags: text_list_field(doc, "tags"@),
                version: text_field(doc, "version"@),
                licence: text_field(doc, "licence"@),
                permissions,
            },
        ),
        None => None,
    }
}

/// The plugin that the bytes of an `info.json` describe.
pub open spec fn plugin_from_file(folder: Seq<char>, bytes: Seq<u8>) -> Option<PluginView> {
    match json_document(bytes) {
        Some(doc) => plugin_from_metadata(folder, doc),
        None => None,
    }
}

impl PluginPermission {
    /// The permission a metadata object declares through its `type`.
    pub fn from_map(map: &Vec<(String, Json)>) -> (r: Result<PluginPermission, ()>)
        ensures
            match member(map@, "type"@) {
                Some(Json::Str(t)) => r matches Ok(p) && p.type_@ == t@,
                _ => r is Err,
            },
    {
        match find_member(map, "type") {
            Some(i) => match &map[i].1 {
                Json::Str(t) => Ok(PluginPermission { type_: t.clone() }),
                _ => Err(()),
            },
            None => Err(()),
        }
    }
}

impl Plugin {
    /// A plugin with an empty folder name and no metadata.
    pub fn new() -> (r: Self)
        ensures
            r@ == (PluginView {
                folder: seq![],
                name: None,
                description: None,
                homepage: None,
                authors: seq![],
                tags: seq![],
                version: None,
                licence: None,
                permissions: seq![],
            }),
    {
        let r = Plugin {
            folder: String::new(),
            name: None,
            description: None,
            homepage: None,
            authors: Vec::new(),
            tags: Vec::new(),
            version: None,
            licence: None,
            permissions: Vec::new(),
        };
        assert(texts(r.authors@) =~= seq![]);
        assert(texts(r.tags@) =~= seq![]);
        assert(permission_texts(r.permissions@) =~= seq![]);
        r
    }
}

/// The permissions that `doc` declares.
fn read_permissions(doc: &Json) -> (r: Result<Vec<PluginPermission>, PluginError>)
    ensures
        match declared_permissions(*doc) {
            Some(p) => r matches Ok(v) && permission_texts(v@) == p,
            None => r matches Err(e) && e is MetadataParseFailure,
        },
{
    let mut out: Vec<PluginPermission> = Vec::new();
    match doc {
        Json::Object(entries) => match find_member(entries, "permissions") {
            Some(k) => match &entries[k].1 {
                Json::Array(items) => {
                    let mut i: usize = 0;
                    while i < items.len()
                        invariant
                            i <= items@.len(),
                            field(*doc, "permissions"@) == Some(Json::Array(*items)),
                            forall|j: int| 0 <= j < i ==> #[trigger] permission_type(items@[j]) is Some,
                            out@.len() == i,
                            forall|j: int|
                                0 <= j < i ==> permission_type(items@[j]) == Some(
                                    #[trigger] out@[j].type_@,
                                ),
                        decreases items@.len() - i,
                    {
                        let p = match &items[i] {
                            Json::Object(map) => match PluginPermission::from_map(map) {
                                Ok(p) => {
                                    assert(items@[i as int] == Json::Object(*map));
                                    assert(permission_type(items@[i as int]) == Some(p.type_@));
                                    p
                                },
                                Err(_) => {
                                    assert(permission_type(items@[i as int]) is None);
                                    return Err(PluginError::MetadataParseFailure);
                                },
                            },
                            _ => {
                                assert(permission_type(items@[i as int]) is None);
                                return Err(PluginError::MetadataParseFailure);
                            },
                        };
                        out.push(p);
                        i = i + 1;
                    }
                },
                _ => {},
            },
            None => {},
        },
        _ => {},
    }
    assert(permission_texts(out@) =~= declared_permissions(*doc)->Some_0);
    Ok(out)
}

/// The plugin in `folder` that a parsed `info.json` describes; fails with
/// `MetadataParseFailure` where a permission entry has no `type` string.
pub fn plugin_from_json(folder: String, doc: &Json) -> (r: Result<Plugin, PluginError>)
    ensures
        match plugin_from_metadata(folder@, *doc) {
            Some(v) => r matches Ok(p) && p@ == v,
            None => r matches Err(e) && e is MetadataParseFailure,
        },
{
    let permissions = read_permissions(doc)?;
    Ok(Plugin {
        folder,
        name: get_text(doc, "name"),
        description: get_text(doc, "description"),
        homepage: get_text(doc, "homepage"),
        authors: get_text_list(doc, "authors"),
        tags: get_text_list(doc, "tags"),
        version: get_text(doc, "version"),
        licence: get_text(doc, "licence"),
        permissions,
    })
}

/// The plugin in the folder `folder_name`, given the bytes of its
/// `info.json`; `Ok(None)` where the folder has no such file.
pub fn parse_plugin(info: Option<&Vec<u8>>, folder_name: String) -> (r: Result<
    Option<Plugin>,
    PluginError,
>)
    ensures
        match info {
            None => r matches Ok(None),
            Some(bytes) => match plugin_from_file(folder_name@, bytes@) {
                Some(v) => r matches Ok(Some(p)) && p@ == v,
                None => r matches Err(e) && e is MetadataParseFailure,
            },
        },
{
    match info {
        None => Ok(None),
        Some(bytes) => match parse_json(bytes.as_slice()) {
            Some(doc) => {
                let p = plugin_from_json(folder_name, &doc)?;
                Ok(Some(p))
            },
            None => Err(PluginError::MetadataParseFailure),
        },
    }
}

/// An entry of the Plugins directory: its name, whether it is a
/// directory, and for a directory the bytes of its `info.json`, if it has
/// one.
#[derive(Debug)]
pub struct FolderEntry {
    pub name: String,
    pub is_dir: bool,
    pub info: Option<Vec<u8>>,
}

/// The plugins that a listing of the Plugins directory holds, in listing
/// order: entries that are not directories, and directories without an
/// `info.json`, are no plugins; `None` where an `info.json` is malformed.
pub open spec fn installed_plugins(entries: Seq<FolderEntry>) -> Option<Seq<PluginView>>
    decreases entries.len(),
{
    if entries.len() == 0 {
        Some(seq![])
    } else {
        match installed_plugins(entries.drop_last()) {
            None => None,
            Some(before) => {
                let e = entries.last();
                if !e.is_dir {
                    Some(before)
                } else {
                    match e.info {
                        None => Some(before),
                        Some(bytes) => match plugin_from_file(e.name@, bytes@) {
                            Some(p) => Some(before.push(p)),
                            None => None,
                        },
                    }
                }
            }
        }
    }
}

/// An entry that is no directory, or a directory without an `info.json`,
/// adds no plugin to a listing and takes none away.
pub proof fn lemma_non_plugins_skipped(entries: Seq<FolderEntry>, e: FolderEntry)
    requires
        !e.is_dir || e.info is None,
    ensures
        installed_plugins(entries.push(e)) == installed_plugins(entries),
{
    assert(entries.push(e).drop_last() =~= entries);
}

/// Once a prefix of a listing holds a malformed plugin, so does every
/// longer prefix.
proof fn lemma_malformed_prefix(entries: Seq<FolderEntry>, i: int, j: int)
    requires
        0 <= i <= j <= entries.len(),
        installed_plugins(entries.take(i)) is None,
    ensures
        installed_plugins(entries.take(j)) is None,
    decreases j - i,
{
    if j > i {
        lemma_malformed_prefix(entries, i, j - 1);
        assert(entries.take(j).drop_last() =~= entries.take(j - 1));
    }
}

/// The plugins installed in a Plugins directory, given its listing.
pub fn parse_plugins(entries: &Vec<FolderEntry>) -> (r: Result<Vec<Plugin>, PluginError>)
    ensures
        match installed_plugins(entries@) {
            Some(v) => r matches Ok(ps) && plugin_views(ps@) == v,
            None => r matches Err(e) && e is MetadataParseFailure,
        },
{
    let mut plugins: Vec<Plugin> = Vec::new();
    let mut i: usize = 0;
    assert(entries@.take(0) =~= seq![]);
    while i < entries.len()
        invariant
            i <= entries@.len(),
            installed_plugins(entries@.take(i as int)) == Some(plugin_views(plugins@)),
        decreases entries@.len() - i,
    {
        let entry = &entries[i];
        assert(entries@.take(i + 1).drop_last() =~= entries@.take(i as int));
        assert(entries@.take(i + 1).last() == entries@[i as int]);
        if entry.is_dir {
            let info = match &entry.info {
                Some(bytes) => Some(bytes),
                None => None,
            };
            match parse_plugin(info, entry.name.clone()) {
                Ok(Some(p)) => {
                    let ghost before = plugins@;
                    plugins.push(p);
                    assert(plugin_views(plugins@) =~= plugin_views(before).push(p@));
                },
                Ok(None) => {},
                Err(e) => {
                    proof {
                        lemma_malformed_prefix(entries@, i + 1, entries@.len() as int);
                        assert(entries@.take(entries@.len() as int) =~= entries@);
                    }
                    return Err(e);
                },
            }
        }
        i = i + 1;
    }
    assert(entries@.take(i as int) =~= entries@);
    Ok(plugins)
}

/// The position of the first plugin installed in the folder `plugin_name`,
/// which is the one to remove; `PluginNotFound` where there is none.
pub fn remove_plugin(plugins: &Vec<Plugin>, plugin_name: &str) -> (r: Result<usize, PluginError>)
    ensures
        match r {
            Ok(i) => i < plugins@.len() && plugins@[i as int].folder@ == plugin_name@ && forall|
                j: int,
            | 0 <= j < i ==> #[trigger] plugins@[j].folder@ != plugin_name@,
            Err(e) => e matches PluginError::PluginNotFound { name } && name@ == plugin_name@
                && forall|j: int|
                0 <= j < plugins@.len() ==> #[trigger] plugins@[j].folder@ != plugin_name@,
        },
{
    let wanted = owned(plugin_name);
    let mut i: usize = 0;
    while i < plugins.len()
        invariant
            i <= plugins@.len(),
            wanted@ == plugin_name@,
            forall|j: int| 0 <= j < i ==> #[trigger] plugins@[j].folder@ != plugin_name@,
        decreases plugins@.len() - i,
    {
        if plugins[i].folder == wanted {
            return Ok(i);
        }
        i = i + 1;
    }
    Err(PluginError::PluginNotFound { name: wanted })
}

} // verus!
