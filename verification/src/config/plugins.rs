//! Built-in plugins and their local installation. Each plugin lives under
//! `{plugins_dir}/{plugin_id}/`; the OCR language packs under
//! `plugins/ocr/tessdata/`. Paths are handled as UTF-8 strings; the file
//! system is the application's.
use vstd::prelude::*;
use crate::text::{concat2, concat3, owned, str_eq};
use crate::DingDaResult;

verus! {

/// Stable id of the OCR plugin.
pub const PLUGIN_ID_OCR: &'static str = "ocr";

/// A resource a plugin downloads.
#[derive(Debug, Clone, Copy)]
pub struct PluginAsset {
    /// File name on disk (such as `chi_sim.traineddata`).
    pub file_name: &'static str,
    /// Download URL.
    pub url: &'static str,
}

/// A plugin as listed to the user.
#[derive(Debug, Clone)]
pub struct PluginItem {
    pub id: String,
    pub name: String,
    pub description: String,
    /// `installed`, `not_installed` or `failed`.
    pub status: String,
    pub error: Option<String>,
}

/// The plugin list.
#[derive(Debug, Clone)]
pub struct PluginIpcListResponse {
    pub items: Vec<PluginItem>,
}

/// The path joined with a component, as `std::path::Path::join` makes it.
pub uninterp spec fn path_joined(base: Seq<char>, part: Seq<char>) -> Seq<char>;

/// The extension of the path's file name, as `std::path::Path::extension`
/// finds it (when it is valid UTF-8).
pub uninterp spec fn path_extension_of(path: Seq<char>) -> Option<Seq<char>>;

/// The path with the extension of its file name set, as
/// `std::path::Path::with_extension` makes it.
pub uninterp spec fn path_with_ext(path: Seq<char>, ext: Seq<char>) -> Seq<char>;

/// Whether the character separates path components on this platform, as
/// `std::path::is_separator` answers.
pub uninterp spec fn path_separator(c: char) -> bool;

/// No character of the text separates path components.
pub open spec fn separator_free(s: Seq<char>) -> bool {
    forall|i: int| 0 <= i < s.len() ==> !path_separator(#[trigger] s[i])
}

/// `std::path::is_separator`: `/` separates on every platform, and the only
/// other separator any platform has is `\\` (Windows).
#[verifier::external_body]
fn is_path_separator(c: char) -> (b: bool)
    ensures
        b == path_separator(c),
        c == '/' ==> b,
        b ==> c == '/' || c == '\\',
{
    std::path::is_separator(c)
}

/// Whether the text holds no path separator; every character is asked, and a
/// separator found among them is `/` or `\\`.
fn no_separator(s: &str) -> (b: bool)
    ensures
        b == separator_free(s@),
        forall|i: int| 0 <= i < s@.len() && path_separator(#[trigger] s@[i]) ==> s@[i] == '/' || s@[i] == '\\',
{
    let v = crate::text::chars_of(s);
    let mut ok = true;
    let mut k: usize = 0;
    while k < v.len()
        invariant
            v@ == s@,
            k <= v@.len(),
            ok == (forall|i: int| 0 <= i < k ==> !path_separator(#[trigger] s@[i])),
            forall|i: int| 0 <= i < k && path_separator(#[trigger] s@[i]) ==> s@[i] == '/' || s@[i] == '\\',
        decreases v.len() - k,
    {
        let sep = is_path_separator(v[k]);
        ok = ok && !sep;
        k = k + 1;
    }
    ok
}

/// `std::path::Path::join` on UTF-8 paths.
#[verifier::external_body]
fn path_join(base: &str, part: &str) -> (r: String)
    ensures
        r@ == path_joined(base@, part@),
{
    std::path::Path::new(base).join(part).to_string_lossy().into_owned()
}

/// `std::path::Path::extension` on a UTF-8 path.
#[verifier::external_body]
fn path_extension(path: &str) -> (r: Option<String>)
    ensures
        crate::text::opt_string(r) == path_extension_of(path@),
        r matches Some(e) ==> separator_free(e@),
{
    std::path::Path::new(path).extension().and_then(|ext| ext.to_str()).map(|ext| ext.to_string())
}

/// `std::path::Path::with_extension` on UTF-8 paths.
#[verifier::external_body]
fn path_set_extension(path: &str, ext: &str) -> (r: String)
    requires
        separator_free(ext@),
    ensures
        r@ == path_with_ext(path@, ext@),
{
    std::path::Path::new(path).with_extension(ext).to_string_lossy().into_owned()
}

/// The plugin's own folder `{plugins_dir}/{plugin_id}`.
pub fn plugin_root(plugins_dir: &str, plugin_id: &str) -> (r: String)
    ensures
        r@ == path_joined(plugins_dir@, plugin_id@),
{
    path_join(plugins_dir, plugin_id)
}

/// The folder of the plugin's files: `tessdata` inside the OCR plugin's
/// folder, the plugin's folder for the others.
pub open spec fn install_dir(plugins_dir: Seq<char>, plugin_id: Seq<char>) -> Seq<char> {
    if plugin_id == "ocr"@ {
        path_joined(path_joined(plugins_dir, plugin_id), "tessdata"@)
    } else {
        path_joined(plugins_dir, plugin_id)
    }
}

/// The folder of the plugin's files (see [`install_dir`]).
pub fn plugin_install_dir(plugins_dir: &str, plugin_id: &str) -> (r: String)
    ensures
        r@ == install_dir(plugins_dir@, plugin_id@),
{
    if str_eq(plugin_id, PLUGIN_ID_OCR) {
        let root = plugin_root(plugins_dir, plugin_id);
        path_join(root.as_str(), "tessdata")
    } else {
        plugin_root(plugins_dir, plugin_id)
    }
}

/// The message refusing an unknown plugin id.
pub open spec fn unknown_plugin_message(plugin_id: Seq<char>) -> Seq<char> {
    "未知插件 id="@ + plugin_id + "；请从设置-插件列表选择已支持的插件（当前仅 ocr）"@
}

/// The message refusing an unknown plugin id.
pub fn unknown_plugin(plugin_id: &str) -> (r: String)
    ensures
        r@ == unknown_plugin_message(plugin_id@),
{
    concat3("未知插件 id=", plugin_id, "；请从设置-插件列表选择已支持的插件（当前仅 ocr）")
}

/// The OCR plugin's downloads: the English and simplified Chinese models.
pub fn ocr_assets() -> (r: Vec<PluginAsset>)
    ensures
        r@.len() == 2,
        r@[0].file_name@ == "eng.traineddata"@,
        r@[0].url@ == "https://github.com/tesseract-ocr/tessdata/raw/main/eng.traineddata"@,
        r@[1].file_name@ == "chi_sim.traineddata"@,
        r@[1].url@ == "https://github.com/tesseract-ocr/tessdata/raw/main/chi_sim.traineddata"@,
{
    let mut v: Vec<PluginAsset> = Vec::new();
    v.push(
        PluginAsset {
            file_name: "eng.traineddata",
            url: "https://github.com/tesseract-ocr/tessdata/raw/main/eng.traineddata",
        },
    );
    v.push(
        PluginAsset {
            file_name: "chi_sim.traineddata",
            url: "https://github.com/tesseract-ocr/tessdata/raw/main/chi_sim.traineddata",
        },
    );
    v
}

/// The plugin's downloads; an unknown id is refused.
pub fn plugin_assets(plugin_id: &str) -> (r: DingDaResult<Vec<PluginAsset>>)
    ensures
        plugin_id@ == "ocr"@ ==> (r matches Ok(v) && v@.len() == 2 && v@[0].file_name@ == "eng.traineddata"@
            && v@[1].file_name@ == "chi_sim.traineddata"@),
        plugin_id@ != "ocr"@ ==> (r matches Err(e) && e@ == unknown_plugin_message(plugin_id@)),
{
    if str_eq(plugin_id, PLUGIN_ID_OCR) {
        Ok(ocr_assets())
    } else {
        Err(unknown_plugin(plugin_id))
    }
}

/// The status of the OCR plugin: `failed` with an error, else `installed`
/// or `not_installed`.
pub open spec fn ocr_status(installed: bool, failed: bool) -> Seq<char> {
    if failed {
        "failed"@
    } else if installed {
        "installed"@
    } else {
        "not_installed"@
    }
}

/// The OCR plugin's entry, given whether its files are present and the
/// error of a failed operation.
pub fn ocr_item(installed: bool, error: Option<String>) -> (r: PluginItem)
    ensures
        r.id@ == "ocr"@,
        r.name@ == "OCR"@,
        r.description@ == "本地 Tesseract 文字识别（简体中文 + 英文语言模型），按需下载，不随安装包分发。"@,
        r.status@ == ocr_status(installed, error is Some),
        r.error == error,
{
    let status = if error.is_some() {
        "failed"
    } else if installed {
        "installed"
    } else {
        "not_installed"
    };
    PluginItem {
        id: owned(PLUGIN_ID_OCR),
        name: owned("OCR"),
        description: owned("本地 Tesseract 文字识别（简体中文 + 英文语言模型），按需下载，不随安装包分发。"),
        status: owned(status),
        error,
    }
}

/// The download's temporary path: the extension (or `bin`) followed by `.part`.
pub open spec fn tmp_path_of(dest: Seq<char>) -> Seq<char> {
    let ext = match path_extension_of(dest) {
        Some(e) => e,
        None => "bin"@,
    };
    path_with_ext(dest, ext + ".part"@)
}

/// The temporary path of a download (see [`tmp_path_of`]).
pub fn tmp_path(dest: &str) -> (r: String)
    ensures
        r@ == tmp_path_of(dest@),
{
    let ext = match path_extension(dest) {
        Some(e) => e,
        None => owned("bin"),
    };
    let with_part = concat2(ext.as_str(), ".part");
    proof {
        reveal_strlit(".part");
        reveal_strlit("bin");
    }
    if no_separator(with_part.as_str()) {
        path_set_extension(dest, with_part.as_str())
    } else {
        proof {
            assert(separator_free(ext@));
            assert forall|i: int| 0 <= i < with_part@.len() implies !path_separator(#[trigger] with_part@[i]) by {
                if i < ext@.len() {
                    assert(with_part@[i] == ext@[i]);
                } else {
                    assert(with_part@[i] == ".part"@[i - ext@.len()]);
                }
            }
        }
        String::new()
    }
}

} // verus!
