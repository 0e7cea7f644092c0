//! The catalog of installed themes: one descriptor for each scanned directory
//! that holds an `index.theme` file, in the order of the scan.

use vstd::prelude::*;
use vstd::string::*;
use crate::metadata::{
    metadata_of, parse_metadata, read_string_members, MetadataView, ThemeMetadata,
};

verus! {

/// The directory that holds one subdirectory for each installed theme, and the
/// metadata files beside them.
pub const THEMES_DIR: &'static str = "/usr/share/themes";

/// The file whose presence makes a subdirectory a theme.
pub const INDEX_FILE: &'static str = "index.theme";

/// The preview shown for a theme that has no usable metadata.
pub const FALLBACK_PREVIEW: &'static str = "/usr/share/icons/pop-os-branding/pop_icon.svg";

/// One installed theme.
#[derive(Clone, Debug, PartialEq, Eq)]
pub struct ThemeDescriptor {
    /// The name of the theme's directory; the value written as the GTK theme.
    pub name: String,
    /// The label shown to the user.
    pub display_name: String,
    /// The path of the preview image.
    pub preview: String,
    /// The editor colour scheme that goes with the theme, if it names one.
    pub gedit_theme: Option<String>,
    /// The shell theme that goes with the theme, if it names one.
    pub shell_theme: Option<String>,
}

/// `ThemeDescriptor` as plain sequences of characters.
pub struct DescriptorView {
    pub name: Seq<char>,
    pub display_name: Seq<char>,
    pub preview: Seq<char>,
    pub gedit_theme: Option<Seq<char>>,
    pub shell_theme: Option<Seq<char>>,
}

impl View for ThemeDescriptor {
    type V = DescriptorView;

    open spec fn view(&self) -> DescriptorView {
        DescriptorView {
            name: self.name@,
            display_name: self.display_name@,
            preview: self.preview@,
            gedit_theme: self.gedit_theme.deep_view(),
            shell_theme: self.shell_theme.deep_view(),
        }
    }
}

impl DeepView for ThemeDescriptor {
    type V = DescriptorView;

    open spec fn deep_view(&self) -> DescriptorView {
        self@
    }
}

/// The descriptor of a theme without usable metadata: it is labelled with its
/// own name, shown with the fallback preview, names no editor scheme, and takes
/// its own name as its shell theme.
pub open spec fn default_description(theme: Seq<char>) -> DescriptorView {
    DescriptorView {
        name: theme,
        display_name: theme,
        preview: FALLBACK_PREVIEW@,
        gedit_theme: None,
        shell_theme: Some(theme),
    }
}

/// The descriptor that metadata gives: none unless both `Name` and `Preview`
/// are present; the two optional members are taken as they are.
pub open spec fn described(theme: Seq<char>, metadata: MetadataView) -> Option<DescriptorView> {
    if metadata.name is Some && metadata.preview is Some {
        Some(
            DescriptorView {
                name: theme,
                display_name: metadata.name->0,
                preview: metadata.preview->0,
                gedit_theme: metadata.gedit_theme,
                shell_theme: metadata.shell_theme,
            },
        )
    } else {
        None
    }
}

/// The descriptor read from the text of a metadata file: none where the file
/// could not be read (`contents` is `None`), where its text cannot be read as
/// JSON, or where `Name` or `Preview` is missing.
pub open spec fn read_description(theme: Seq<char>, contents: Option<Seq<char>>) -> Option<
    DescriptorView,
> {
    match contents {
        Some(text) => match read_string_members(text) {
            Some(members) => described(theme, metadata_of(members)),
            None => None,
        },
        None => None,
    }
}

/// The path of the metadata file of the theme `theme`.
pub open spec fn metadata_path_of(theme: Seq<char>) -> Seq<char> {
    THEMES_DIR@ + "/"@ + theme + ".json"@
}

/// The path of the metadata file of a theme: `<theme>.json` in `THEMES_DIR`.
pub fn metadata_path(theme: &str) -> (path: String)
    ensures
        path@ == metadata_path_of(theme@),
{
    let mut path = String::from_str(THEMES_DIR);
    path.append("/");
    path.append(theme);
    path.append(".json");
    path
}

/// The descriptor of a theme without usable metadata.
pub fn default_descriptor(theme: &str) -> (descriptor: ThemeDescriptor)
    ensures
        descriptor@ == default_description(theme@),
{
    ThemeDescriptor {
        name: theme.to_owned(),
        display_name: theme.to_owned(),
        preview: FALLBACK_PREVIEW.to_owned(),
        gedit_theme: None,
        shell_theme: Some(theme.to_owned()),
    }
}

/// Builds the descriptor of `theme` from the members of its metadata file.
/// `None` unless both `Name` and `Preview` are present.
pub fn descriptor_from_metadata(theme: &str, metadata: ThemeMetadata) -> (descriptor: Option<
    ThemeDescriptor,
>)
    ensures
        descriptor.deep_view() == described(theme@, metadata@),
{
    let ThemeMetadata { name, preview, gedit_theme, shell_theme } = metadata;
    match (name, preview) {
        (Some(display_name), Some(preview)) => Some(
            ThemeDescriptor { name: theme.to_owned(), display_name, preview, gedit_theme, shell_theme },
        ),
        _ => None,
    }
}

/// Reads the descriptor of `theme` from the text of its metadata file, where
/// `contents` is `None` if the file could not be read.
pub fn read_theme_descriptor(theme: &str, contents: Option<&str>) -> (descriptor: Option<
    ThemeDescriptor,
>)
    ensures
        descriptor.deep_view() == read_description(theme@, contents.deep_view()),
{
    match contents {
        Some(text) => match parse_metadata(text) {
            Some(metadata) => descriptor_from_metadata(theme, metadata),
            None => None,
        },
        None => None,
    }
}

/// What a scan found of one entry of the themes directory.
#[derive(Clone, Debug, PartialEq, Eq)]
pub struct ThemeDir {
    /// The last component of the entry's path, where it has one.
    pub file_name: Option<String>,
    /// Whether the entry holds a file named `INDEX_FILE`.
    pub has_index: bool,
    /// The text of the theme's metadata file, where it could be read.
    pub metadata: Option<String>,
}

/// `ThemeDir` as plain sequences of characters.
pub struct ThemeDirView {
    pub file_name: Option<Seq<char>>,
    pub has_index: bool,
    pub metadata: Option<Seq<char>>,
}

impl View for ThemeDir {
    type V = ThemeDirView;

    open spec fn view(&self) -> ThemeDirView {
        ThemeDirView {
            file_name: self.file_name.deep_view(),
            has_index: self.has_index,
            metadata: self.metadata.deep_view(),
        }
    }
}

impl DeepView for ThemeDir {
    type V = ThemeDirView;

    open spec fn deep_view(&self) -> ThemeDirView {
        self@
    }
}

/// An entry is a theme where it holds the index file and has a name.
pub open spec fn is_theme(dir: ThemeDirView) -> bool {
    dir.has_index && dir.file_name is Some
}

/// The descriptor that an entry contributes to the catalog: none unless it is a
/// theme; else the one read from its metadata, or the default one where that
/// gives none.
pub open spec fn listed(dir: ThemeDirView) -> Option<DescriptorView> {
    if is_theme(dir) {
        let theme = dir.file_name->0;
        match read_description(theme, dir.metadata) {
            Some(descriptor) => Some(descriptor),
            None => Some(default_description(theme)),
        }
    } else {
        None
    }
}

/// `listed`, as a function value.
pub open spec fn listing() -> spec_fn(ThemeDirView) -> Option<DescriptorView> {
    |dir: ThemeDirView| listed(dir)
}

/// The catalog of a scan: what each entry contributes, in the order of the scan.
pub open spec fn catalog_of(dirs: Seq<ThemeDirView>) -> Seq<DescriptorView> {
    dirs.filter_map(listing())
}

impl ThemeDir {
    /// Whether the entry is a theme, so that its metadata is worth reading.
    pub fn is_theme(&self) -> (theme: bool)
        ensures
            theme == is_theme(self@),
    {
        self.has_index && self.file_name.is_some()
    }
}

/// Builds the catalog from the entries of the themes directory, in their order.
/// An entry without the index file, or without a name, is left out. Every other
/// entry gives one descriptor, named after the entry: the one its metadata
/// describes, or the default one where the metadata is missing or unusable.
pub fn gen_theme_list(dirs: &Vec<ThemeDir>) -> (themes: Vec<ThemeDescriptor>)
    ensures
        themes.deep_view() == catalog_of(dirs.deep_view()),
{
    let mut themes: Vec<ThemeDescriptor> = Vec::new();
    let mut i: usize = 0;
    while i < dirs.len()
        invariant
            i <= dirs.len(),
            themes.deep_view() == catalog_of(dirs.deep_view().take(i as int)),
        decreases dirs.len() - i,
    {
        let dir = &dirs[i];
        let ghost before = themes.deep_view();
        proof {
            dirs.deep_view().lemma_filter_map_take_succ(listing(), i as int);
            assert(dirs.deep_view()[i as int] == dir@);
        }
        if dir.has_index {
            match &dir.file_name {
                Some(file_name) => {
                    let contents = match &dir.metadata {
                        Some(text) => Some(text.as_str()),
                        None => None,
                    };
                    let descriptor = match read_theme_descriptor(file_name.as_str(), contents) {
                        Some(descriptor) => descriptor,
                        None => default_descriptor(file_name.as_str()),
                    };
                    themes.push(descriptor);
                    assert(themes.deep_view() =~= before + seq![descriptor@]);
                },
                None => {},
            }
        }
        i += 1;
    }
    assert(dirs.deep_view().take(dirs.len() as int) =~= dirs.deep_view());
    themes
}

/// The metadata of an entry is usable where the file could be read, its text
/// can be read as JSON, and the document holds both `Name` and `Preview` as
/// strings.
pub open spec fn has_usable_metadata(dir: ThemeDirView) -> bool {
    &&& dir.metadata is Some
    &&& read_string_members(dir.metadata->0) matches Some(members)
    &&& members.contains_key("Name"@)
    &&& members.contains_key("Preview"@)
}

/// Every descriptor of the catalog comes from an entry of the scan that holds
/// the index file, and is named after that entry.
pub proof fn lemma_catalog_entries_are_themes(dirs: Seq<ThemeDirView>, j: int)
    requires
        0 <= j < catalog_of(dirs).len(),
    ensures
        exists|i: int|
            0 <= i < dirs.len() && is_theme(#[trigger] dirs[i]) && listed(dirs[i]) == Some(
                catalog_of(dirs)[j],
            ) && dirs[i].file_name == Some(catalog_of(dirs)[j].name),
{
    let descriptor = catalog_of(dirs)[j];
    assert(catalog_of(dirs).contains(descriptor));
    dirs.lemma_filter_map_contains(listing(), descriptor);
    let dir = choose|dir: ThemeDirView| #[trigger]
        dirs.contains(dir) && listing()(dir) == Some(descriptor);
    let i = choose|i: int| 0 <= i < dirs.len() && dirs[i] == dir;
    assert(is_theme(dirs[i]));
}

/// A name under which no entry of the scan holds the index file is the name of
/// no descriptor in the catalog.
pub proof fn lemma_without_index_excluded(dirs: Seq<ThemeDirView>, name: Seq<char>)
    requires
        forall|i: int|
            0 <= i < dirs.len() && (#[trigger] dirs[i]).file_name == Some(name)
                ==> !dirs[i].has_index,
    ensures
        forall|j: int|
            0 <= j < catalog_of(dirs).len() ==> (#[trigger] catalog_of(dirs)[j]).name != name,
{
    assert forall|j: int| 0 <= j < catalog_of(dirs).len() implies (#[trigger] catalog_of(
        dirs,
    )[j]).name != name by {
        lemma_catalog_entries_are_themes(dirs, j);
    }
}

/// Every entry of the scan that is a theme has its descriptor in the catalog.
pub proof fn lemma_themes_are_listed(dirs: Seq<ThemeDirView>, i: int)
    requires
        0 <= i < dirs.len(),
        is_theme(dirs[i]),
    ensures
        catalog_of(dirs).contains(listed(dirs[i])->0),
    decreases dirs.len(),
{
    let rest = dirs.drop_last();
    let kept = rest.filter_map(listing());
    if i == dirs.len() - 1 {
        let descriptor = listed(dirs[i])->0;
        assert(catalog_of(dirs) == kept + seq![descriptor]);
        assert(catalog_of(dirs)[kept.len() as int] == descriptor);
    } else {
        lemma_themes_are_listed(rest, i);
        let descriptor = listed(rest[i])->0;
        let k = choose|k: int| 0 <= k < kept.len() && kept[k] == descriptor;
        assert(catalog_of(dirs)[k] == descriptor);
    }
}

/// A theme whose metadata file is missing, cannot be read as JSON, or lacks
/// `Name` or `Preview` gets the default descriptor: it is labelled with its own name, has
/// its own name as its shell theme, and names no editor scheme.
pub proof fn lemma_unusable_metadata_gives_default(dir: ThemeDirView)
    requires
        is_theme(dir),
        !has_usable_metadata(dir),
    ensures
        listed(dir) == Some(default_description(dir.file_name->0)),
        listed(dir)->0.name == dir.file_name->0,
        listed(dir)->0.display_name == dir.file_name->0,
        listed(dir)->0.shell_theme == Some(dir.file_name->0),
        listed(dir)->0.gedit_theme is None,
{
}

/// A theme with usable metadata is labelled and shown as its metadata says, and
/// has an editor scheme and a shell theme exactly where the metadata names one.
pub proof fn lemma_usable_metadata_is_kept(dir: ThemeDirView)
    requires
        is_theme(dir),
        has_usable_metadata(dir),
    ensures
        listed(dir) == described(
            dir.file_name->0,
            metadata_of(read_string_members(dir.metadata->0)->0),
        ),
        listed(dir)->0.name == dir.file_name->0,
        listed(dir)->0.display_name == read_string_members(dir.metadata->0)->0["Name"@],
        listed(dir)->0.preview == read_string_members(dir.metadata->0)->0["Preview"@],
{
}

/// The themes of a scan are named as keys: no name is empty, and no two themes
/// have the same name.
pub open spec fn theme_names_are_keys(dirs: Seq<ThemeDirView>) -> bool {
    &&& forall|i: int|
        0 <= i < dirs.len() && is_theme(#[trigger] dirs[i]) ==> dirs[i].file_name->0.len() > 0
    &&& forall|i: int, j: int|
        0 <= i < j < dirs.len() && is_theme(#[trigger] dirs[i]) && is_theme(#[trigger] dirs[j])
            ==> dirs[i].file_name != dirs[j].file_name
}

/// Where the themes of a scan are named as keys, so are the descriptors of the
/// catalog: no descriptor has an empty name, and no two have the same name.
pub proof fn lemma_catalog_names_are_keys(dirs: Seq<ThemeDirView>)
    requires
        theme_names_are_keys(dirs),
    ensures
        forall|j: int|
            0 <= j < catalog_of(dirs).len() ==> (#[trigger] catalog_of(dirs)[j]).name.len() > 0,
        forall|j: int, k: int|
            0 <= j < k < catalog_of(dirs).len() ==> (#[trigger] catalog_of(dirs)[j]).name != (
            #[trigger] catalog_of(dirs)[k]).name,
    decreases dirs.len(),
{
    let catalog = catalog_of(dirs);
    assert forall|j: int| 0 <= j < catalog.len() implies (#[trigger] catalog[j]).name.len()
        > 0 by {
        lemma_catalog_entries_are_themes(dirs, j);
    }
    if dirs.len() > 0 {
        let rest = dirs.drop_last();
        let kept = catalog_of(rest);
        assert(theme_names_are_keys(rest)) by {
            assert forall|i: int| 0 <= i < rest.len() implies rest[i] == dirs[i] by {}
        }
        lemma_catalog_names_are_keys(rest);
        assert forall|j: int, k: int| 0 <= j < k < catalog.len() implies (#[trigger] catalog[j]).name
            != (#[trigger] catalog[k]).name by {
            if k < kept.len() {
                assert(catalog[j] == kept[j] && catalog[k] == kept[k]);
            } else {
                assert(is_theme(dirs.last()));
                assert(catalog[k].name == dirs.last().file_name->0);
                assert(catalog[j] == kept[j]);
                lemma_catalog_entries_are_themes(rest, j);
                let i = choose|i: int|
                    0 <= i < rest.len() && is_theme(#[trigger] rest[i]) && rest[i].file_name
                        == Some(kept[j].name);
                assert(rest[i] == dirs[i]);
                assert(is_theme(dirs[dirs.len() - 1]));
            }
        }
    }
}

/// `is_theme`, as a function value.
pub open spec fn theme_test() -> spec_fn(ThemeDirView) -> bool {
    |dir: ThemeDirView| is_theme(dir)
}

/// The catalog holds exactly one descriptor for each theme of the scan, in the
/// order of the scan: its entries are what the themes, taken in their order,
/// contribute.
pub proof fn lemma_one_descriptor_per_theme(dirs: Seq<ThemeDirView>)
    ensures
        catalog_of(dirs).len() == dirs.filter(theme_test()).len(),
        forall|k: int|
            0 <= k < catalog_of(dirs).len() ==> Some(#[trigger] catalog_of(dirs)[k]) == listed(
                dirs.filter(theme_test())[k],
            ),
    decreases dirs.len(),
{
    reveal(Seq::filter);
    if dirs.len() > 0 {
        let rest = dirs.drop_last();
        lemma_one_descriptor_per_theme(rest);
        let kept = catalog_of(rest);
        let themes = rest.filter(theme_test());
        assert forall|k: int| 0 <= k < catalog_of(dirs).len() implies Some(
            #[trigger] catalog_of(dirs)[k],
        ) == listed(dirs.filter(theme_test())[k]) by {
            if k < kept.len() {
                assert(catalog_of(dirs)[k] == kept[k]);
                assert(dirs.filter(theme_test())[k] == themes[k]);
            }
        }
    }
}

} // verus!
