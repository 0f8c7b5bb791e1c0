//! The settings of the user that the framework is told.
use vstd::prelude::*;

verus! {

/// The channel on which the settings are sent.
pub const SETTINGS_CHANNEL: &'static str = "flutter/settings";

/// The settings of the user, but for the scale of text.
#[derive(Clone, Copy, Debug)]
pub struct Settings {
    pub platform_brightness: &'static str,
    pub always_use_24_hour_format: bool,
}

/// The settings, given the system setting that tells whether applications use the light theme.
pub fn settings(use_light_theme: u32) -> (res: Settings)
    ensures
        res.platform_brightness@ == (if use_light_theme == 0 {
            "dark"@
        } else {
            "light"@
        }),
        !res.always_use_24_hour_format,
{
    Settings {
        platform_brightness: if use_light_theme == 0 {
            "dark"
        } else {
            "light"
        },
        always_use_24_hour_format: false,
    }
}

/// The brightness is light exactly if the applications use the light theme, else dark. Times are
/// never asked for with 24 hours.
pub proof fn brightness_follows_the_theme(use_light_theme: u32, res: Settings)
    requires
        call_ensures(settings, (use_light_theme,), res),
    ensures
        res.platform_brightness@ == "light"@ <==> use_light_theme > 0,
        res.platform_brightness@ == "dark"@ <==> use_light_theme == 0,
        !res.always_use_24_hour_format,
        SETTINGS_CHANNEL@ == "flutter/settings"@,
{
    reveal_strlit("dark");
    reveal_strlit("light");
    assert("dark"@.len() != "light"@.len());
}

} // verus!
