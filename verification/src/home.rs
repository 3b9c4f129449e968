//! The hero of the home workspace and the text of the status bar.
use crate::text::{decimal, decimal_text, join2};
use crate::theme::{DesignSpace, StatusFace};
use vstd::prelude::*;

verus! {

pub const HOME_HERO_SHORT_HEIGHT: u32 = 640;

pub const HOME_HERO_WIDE_WIDTH: u32 = 1_200;

pub const HOME_HERO_MEDIUM_WIDTH: u32 = 800;

/// The measures of the home hero in pixels.
#[derive(Debug, Clone, Copy, PartialEq, Eq, Structural)]
pub struct HomeHeroLayout {
    pub wordmark_width: u32,
    pub minimum_height: u32,
    pub vertical_padding: DesignSpace,
    pub headline_gap: DesignSpace,
    pub description_gap: DesignSpace,
}

/// The width of the wordmark where there is height enough.
pub open spec fn wordmark_width(viewport_width: u32) -> u32 {
    if viewport_width >= HOME_HERO_WIDE_WIDTH {
        360
    } else if viewport_width >= HOME_HERO_MEDIUM_WIDTH {
        320
    } else {
        280
    }
}

impl HomeHeroLayout {
    pub open spec fn resolved(viewport_width: u32, viewport_height: u32) -> HomeHeroLayout {
        if viewport_height < HOME_HERO_SHORT_HEIGHT {
            HomeHeroLayout {
                wordmark_width: 280,
                minimum_height: 224,
                vertical_padding: DesignSpace::Sm,
                headline_gap: DesignSpace::Md,
                description_gap: DesignSpace::Sm,
            }
        } else {
            HomeHeroLayout {
                wordmark_width: wordmark_width(viewport_width),
                minimum_height: 320,
                vertical_padding: DesignSpace::Xl,
                headline_gap: DesignSpace::Xl,
                description_gap: DesignSpace::Md,
            }
        }
    }

    pub fn resolve(viewport_width: u32, viewport_height: u32) -> (layout: Self)
        ensures
            layout == Self::resolved(viewport_width, viewport_height),
    {
        let wordmark: u32 = if viewport_width >= HOME_HERO_WIDE_WIDTH {
            360
        } else if viewport_width >= HOME_HERO_MEDIUM_WIDTH {
            320
        } else {
            280
        };
        if viewport_height < HOME_HERO_SHORT_HEIGHT {
            return HomeHeroLayout {
                wordmark_width: if wordmark < 280 {
                    wordmark
                } else {
                    280
                },
                minimum_height: 224,
                vertical_padding: DesignSpace::Sm,
                headline_gap: DesignSpace::Md,
                description_gap: DesignSpace::Sm,
            };
        }
        HomeHeroLayout {
            wordmark_width: wordmark,
            minimum_height: 320,
            vertical_padding: DesignSpace::Xl,
            headline_gap: DesignSpace::Xl,
            description_gap: DesignSpace::Md,
        }
    }
}

/// A short window compacts the hero and never grows its wordmark; a wider
/// window never shrinks it.
pub proof fn law_hero_follows_the_viewport(narrow: u32, wide: u32, short: u32, tall: u32)
    requires
        narrow <= wide,
        short <= tall,
    ensures
        HomeHeroLayout::resolved(wide, short).wordmark_width <= HomeHeroLayout::resolved(
            wide,
            tall,
        ).wordmark_width,
        HomeHeroLayout::resolved(wide, short).minimum_height <= HomeHeroLayout::resolved(
            wide,
            tall,
        ).minimum_height,
        HomeHeroLayout::resolved(narrow, tall).wordmark_width <= HomeHeroLayout::resolved(
            wide,
            tall,
        ).wordmark_width,
{
}

/// What the status bar says.
#[derive(Debug, PartialEq, Eq)]
pub struct StatusBarText {
    pub accessible_label: String,
    pub changed_files: String,
    pub shows_notice: bool,
}

/// How many files have changed, in words.
pub open spec fn changed_files_text(count: usize) -> Seq<char> {
    if count == 1 {
        "1 changed file"@
    } else {
        decimal(count as nat) + " changed files"@
    }
}

pub fn status_bar_text(status: StatusFace, changed_file_count: usize, has_notice: bool) -> (text:
    StatusBarText)
    ensures
        text.accessible_label@ == "Desktop status: "@ + status.label@,
        text.changed_files@ == changed_files_text(changed_file_count),
        text.shows_notice == has_notice,
{
    StatusBarText {
        accessible_label: join2("Desktop status: ", status.label),
        changed_files: if changed_file_count == 1 {
            "1 changed file".to_owned()
        } else {
            join2(decimal_text(changed_file_count as u128).as_str(), " changed files")
        },
        shows_notice: has_notice,
    }
}

/// The wordmark has three sizes by the width of the window, and the smallest one where
/// the window is short; there everything is closer together.
pub proof fn law_hero_fits_its_window(width: u32, height: u32)
    ensures
        ({
            let layout = HomeHeroLayout::resolved(width, height);
            &&& height < 640 ==> layout.wordmark_width == 280 && layout.minimum_height == 224
                && layout.vertical_padding is Sm && layout.headline_gap is Md
                && layout.description_gap is Sm
            &&& height >= 640 ==> layout.minimum_height == 320 && layout.vertical_padding is Xl
                && layout.headline_gap is Xl && layout.description_gap is Md
            &&& height >= 640 && width >= 1_200 ==> layout.wordmark_width == 360
            &&& height >= 640 && 800 <= width < 1_200 ==> layout.wordmark_width == 320
            &&& height >= 640 && width < 800 ==> layout.wordmark_width == 280
        }),
{
}

/// Changed files are counted, and one is no plural.
pub proof fn law_changed_files_are_counted(count: usize)
    ensures
        changed_files_text(1) == "1 changed file"@,
        count != 1 ==> changed_files_text(count) == decimal(count as nat) + " changed files"@,
{
}

} // verus!
