use vstd::prelude::*;

use crate::plugin::{permission_texts, plugin_views, texts, Plugin, PluginView};
use crate::text::owned;

verus! {

/// The cells of a table, row by row, as plain text.
pub open spec fn cells(rows: Seq<Vec<String>>) -> Seq<Seq<Seq<char>>> {
    rows.map_values(|row: Vec<String>| row@.map_values(|s: String| s@))
}

/// The text of a table of these cells with rounded borders.
pub uninterp spec fn rounded_table_text(rows: Seq<Seq<Seq<char>>>) -> Seq<char>;

/// The text of a table of these cells with rounded ASCII borders.
pub uninterp spec fn ascii_rounded_table_text(rows: Seq<Seq<Seq<char>>>) -> Seq<char>;

/// Relies on tabled's Builder::from, Builder::build and
/// Table::with(Style::rounded) to lay the rows out as a table; the text
/// depends on the cells alone.
#[verifier::external_body]
fn render_rounded_table(rows: Vec<Vec<String>>) -> (r: String)
    ensures
        r@ == rounded_table_text(cells(rows@)),
{
    let mut table = tabled::builder::Builder::from(rows).build();
    table.with(tabled::settings::Style::rounded());
    table.to_string()
}

/// Relies on tabled's Builder::from, Builder::build and
/// Table::with(Style::ascii_rounded) to lay the rows out as a table; the
/// text depends on the cells alone.
#[verifier::external_body]
fn render_ascii_rounded_table(rows: Vec<Vec<String>>) -> (r: String)
    ensures
        r@ == ascii_rounded_table_text(cells(rows@)),
{
    let mut table = tabled::builder::Builder::from(rows).build();
    table.with(tabled::settings::Style::ascii_rounded());
    table.to_string()
}

/// The text, or `fallback` where there is none.
pub open spec fn or_else(o: Option<Seq<char>>, fallback: Seq<char>) -> Seq<char> {
    match o {
        Some(s) => s,
        None => fallback,
    }
}

/// The items separated by `sep`.
pub open spec fn joined(items: Seq<Seq<char>>, sep: Seq<char>) -> Seq<char>
    decreases items.len(),
{
    if items.len() == 0 {
        seq![]
    } else if items.len() == 1 {
        items[0]
    } else {
        joined(items.drop_last(), sep) + sep + items.last()
    }
}

/// The row that lists one plugin: its folder, its name in parentheses and
/// its version after a `v`.
pub open spec fn listing_row(p: PluginView) -> Seq<Seq<char>> {
    seq![p.folder, "("@ + or_else(p.name, "Unknown"@) + ")"@, "v"@ + or_else(p.version, "Unknown"@)]
}

/// The rows of the plugin list: a header, then one row per plugin.
pub open spec fn listing_rows(ps: Seq<PluginView>) -> Seq<Seq<Seq<char>>> {
    seq![seq!["Installation Name"@, "Plugin Name"@, "Version"@]] + ps.map_values(
        |p: PluginView| listing_row(p),
    )
}

/// The rows describing one plugin, a label and a value each.
pub open spec fn info_rows(p: PluginView) -> Seq<Seq<Seq<char>>> {
    seq![
        seq!["Folder"@, p.folder],
        seq!["Name"@, or_else(p.name, "Unknown"@)],
        seq!["Description"@, or_else(p.description, "None"@)],
        seq!["Homepage"@, or_else(p.homepage, "None"@)],
        seq!["Authors"@, joined(p.authors, ", "@)],
        seq!["Tags"@, joined(p.tags, ", "@)],
        seq!["Version"@, or_else(p.version, "Unknown"@)],
        seq!["Licence"@, or_else(p.licence, "None"@)],
        seq!["Permissions"@, joined(p.permissions, ", "@)],
    ]
}

fn text_or(o: &Option<String>, fallback: &str) -> (r: String)
    ensures
        r@ == or_else(
            match o {
                Some(s) => Some(s@),
                None => None,
            },
            fallback@,
        ),
{
    match o {
        Some(s) => s.clone(),
        None => owned(fallback),
    }
}

/// The items separated by `sep`.
pub fn join_texts(items: &Vec<String>, sep: &str) -> (r: String)
    ensures
        r@ == joined(texts(items@), sep@),
{
    let mut r = String::new();
    let mut i: usize = 0;
    while i < items.len()
        invariant
            i <= items@.len(),
            r@ == joined(texts(items@).take(i as int), sep@),
        decreases items@.len() - i,
    {
        let ghost t = texts(items@);
        assert(t.take(i + 1).drop_last() =~= t.take(i as int));
        assert(t.take(i + 1).last() == items@[i as int]@);
        if i == 0 {
            assert(t.take(0) =~= seq![]);
            r = items[i].clone();
            assert(t.take(1) =~= seq![items@[0]@]);
        } else {
            r.append(sep);
            r.append(items[i].as_str());
        }
        i = i + 1;
    }
    assert(texts(items@).take(i as int) =~= texts(items@));
    if items.len() == 0 {
        assert(r@ =~= Seq::<char>::empty());
    }
    r
}

fn pair(label: &str, value: String) -> (r: Vec<String>)
    ensures
        r@.map_values(|s: String| s@) == seq![label@, value@],
{
    let mut r: Vec<String> = Vec::new();
    r.push(owned(label));
    r.push(value);
    assert(r@.map_values(|s: String| s@) =~= seq![label@, value@]);
    r
}

/// The rows of the plugin list.
pub fn plugin_list_rows(plugins: &Vec<Plugin>) -> (r: Vec<Vec<String>>)
    ensures
        cells(r@) == listing_rows(plugin_views(plugins@)),
{
    let mut header: Vec<String> = Vec::new();
    header.push(owned("Installation Name"));
    header.push(owned("Plugin Name"));
    header.push(owned("Version"));
    assert(header@.map_values(|s: String| s@) =~= seq![
        "Installation Name"@,
        "Plugin Name"@,
        "Version"@,
    ]);
    let mut rows: Vec<Vec<String>> = Vec::new();
    rows.push(header);
    let ghost head = seq![seq!["Installation Name"@, "Plugin Name"@, "Version"@]];
    let ghost all = plugin_views(plugins@).map_values(|p: PluginView| listing_row(p));
    assert(cells(rows@) =~= head);
    let mut i: usize = 0;
    while i < plugins.len()
        invariant
            i <= plugins@.len(),
            all == plugin_views(plugins@).map_values(|p: PluginView| listing_row(p)),
            cells(rows@) == head + all.take(i as int),
        decreases plugins@.len() - i,
    {
        let p = &plugins[i];
        let mut name = owned("(");
        let inner = text_or(&p.name, "Unknown");
        name.append(inner.as_str());
        name.append(")");
        let mut version = owned("v");
        let v = text_or(&p.version, "Unknown");
        version.append(v.as_str());
        let mut row: Vec<String> = Vec::new();
        row.push(p.folder.clone());
        row.push(name);
        row.push(version);
        assert(row@.map_values(|s: String| s@) =~= listing_row(p@));
        let ghost before = rows@;
        rows.push(row);
        assert(all.take(i + 1) =~= all.take(i as int).push(listing_row(p@)));
        assert(cells(rows@) =~= cells(before).push(listing_row(p@)));
        i = i + 1;
    }
    assert(all.take(i as int) =~= all);
    rows
}

/// The plugin list as a table with rounded borders.
pub fn list_plugins(plugins: &Vec<Plugin>) -> (r: String)
    ensures
        r@ == rounded_table_text(listing_rows(plugin_views(plugins@))),
{
    render_rounded_table(plugin_list_rows(plugins))
}

/// The rows that describe one plugin.
pub fn plugin_info_rows(plugin: &Plugin) -> (r: Vec<Vec<String>>)
    ensures
        cells(r@) == info_rows(plugin@),
{
    let mut permissions: Vec<String> = Vec::new();
    let mut i: usize = 0;
    while i < plugin.permissions.len()
        invariant
            i <= plugin.permissions@.len(),
            texts(permissions@) == permission_texts(plugin.permissions@).take(i as int),
        decreases plugin.permissions@.len() - i,
    {
        let ghost before = permissions@;
        permissions.push(plugin.permissions[i].type_.clone());
        assert(texts(permissions@) =~= texts(before).push(plugin.permissions@[i as int].type_@));
        assert(permission_texts(plugin.permissions@).take(i + 1) =~= permission_texts(
            plugin.permissions@,
        ).take(i as int).push(plugin.permissions@[i as int].type_@));
        i = i + 1;
    }
    assert(permission_texts(plugin.permissions@).take(i as int) =~= permission_texts(
        plugin.permissions@,
    ));
    let mut rows: Vec<Vec<String>> = Vec::new();
    rows.push(pair("Folder", plugin.folder.clone()));
    rows.push(pair("Name", text_or(&plugin.name, "Unknown")));
    rows.push(pair("Description", text_or(&plugin.description, "None")));
    rows.push(pair("Homepage", text_or(&plugin.homepage, "None")));
    rows.push(pair("Authors", join_texts(&plugin.authors, ", ")));
    rows.push(pair("Tags", join_texts(&plugin.tags, ", ")));
    rows.push(pair("Version", text_or(&plugin.version, "Unknown")));
    rows.push(pair("Licence", text_or(&plugin.licence, "None")));
    rows.push(pair("Permissions", join_texts(&permissions, ", ")));
    assert(cells(rows@) =~= info_rows(plugin@));
    rows
}

/// The description of one plugin as a table with rounded ASCII borders.
pub fn print_plugin_info(plugin: &Plugin) -> (r: String)
    ensures
        r@ == ascii_rounded_table_text(info_rows(plugin@)),
{
    render_ascii_rounded_table(plugin_info_rows(plugin))
}

} // verus!
