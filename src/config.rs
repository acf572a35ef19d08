//! Plugin configuration: where fonts come from.
use vstd::prelude::*;

verus! {

/// Configuration options for the font system.
#[derive(Clone, Debug)]
pub struct CosmicFontConfig {
    /// A directory whose fonts are loaded.
    pub fonts_dir_path: Option<String>,
    /// Font files given as bytes.
    pub font_bytes: Option<Vec<&'static [u8]>>,
    /// If false, some characters (especially Unicode emoji) might not load
    /// properly. Caution: this can be relatively slow.
    pub load_system_fonts: bool,
}

impl Default for CosmicFontConfig {
    fn default() -> (r: Self)
        ensures
            r.fonts_dir_path.is_none(),
            r.font_bytes.is_some() && r.font_bytes.unwrap()@.len() == 0,
            r.load_system_fonts,
    {
        CosmicFontConfig { fonts_dir_path: None, font_bytes: Some(Vec::new()), load_system_fonts: true }
    }
}

/// The editing plugin's settings.
#[derive(Clone, Debug)]
pub struct CosmicEditPlugin {
    pub font_config: CosmicFontConfig,
}

impl Default for CosmicEditPlugin {
    fn default() -> (r: Self)
        ensures
            r.font_config.fonts_dir_path.is_none(),
            r.font_config.font_bytes.is_some() && r.font_config.font_bytes.unwrap()@.len() == 0,
            r.font_config.load_system_fonts,
    {
        CosmicEditPlugin { font_config: CosmicFontConfig::default() }
    }
}

/// The locale used when the system reports none.
pub const DEFAULT_LOCALE: &'static str = "en-US";

/// The locale for shaping: the system's, or [`DEFAULT_LOCALE`] when it
/// reports none.
pub fn locale_or_default(system_locale: Option<String>) -> (r: String)
    ensures
        system_locale.is_some() ==> r@ == system_locale.unwrap()@,
        system_locale.is_none() ==> r@ == DEFAULT_LOCALE@,
{
    match system_locale {
        Some(l) => l,
        None => String::from_str(DEFAULT_LOCALE),
    }
}

} // verus!
