//! The window-type catalog: the full creation configuration for each window
//! type, derived from the type's own attributes.

use vstd::prelude::*;
use vstd::string::StringExecFns;

use crate::window_type::WindowType;

verus! {

/// Everything the windowing backend needs to create one window. Immutable
/// once built; `label` doubles as the registry key.
#[derive(Debug, PartialEq)]
pub struct WindowConfig {
    pub label: String,
    pub title: String,
    pub url: String,
    pub width: u32,
    pub height: u32,
    pub min_width: Option<u32>,
    pub min_height: Option<u32>,
    pub max_width: Option<u32>,
    pub max_height: Option<u32>,
    pub resizable: bool,
    pub center: bool,
    pub always_on_top: bool,
    pub decorations: bool,
    pub transparent: bool,
    pub shadow: bool,
    pub devtools: bool,
}

impl WindowConfig {
    /// Size bounds are consistent: where present, minimum and maximum
    /// enclose the default size on both axes.
    pub open spec fn wf(self) -> bool {
        &&& (self.min_width matches Option::Some(w) ==> w <= self.width)
        &&& (self.min_height matches Option::Some(h) ==> h <= self.height)
        &&& (self.max_width matches Option::Some(w) ==> self.width <= w)
        &&& (self.max_height matches Option::Some(h) ==> self.height <= h)
    }
}

impl Clone for WindowConfig {
    fn clone(&self) -> (r: Self)
        ensures
            r == self,
    {
        WindowConfig {
            label: self.label.clone(),
            title: self.title.clone(),
            url: self.url.clone(),
            width: self.width,
            height: self.height,
            min_width: self.min_width,
            min_height: self.min_height,
            max_width: self.max_width,
            max_height: self.max_height,
            resizable: self.resizable,
            center: self.center,
            always_on_top: self.always_on_top,
            decorations: self.decorations,
            transparent: self.transparent,
            shadow: self.shadow,
            devtools: self.devtools,
        }
    }
}

impl Default for WindowConfig {
    /// A plain resizable 800 by 600 window with no identity yet.
    fn default() -> (r: Self)
        ensures
            r.label@ == Seq::<char>::empty(),
            r.title@ == Seq::<char>::empty(),
            r.url@ == Seq::<char>::empty(),
            r.width == 800,
            r.height == 600,
            r.min_width is None,
            r.min_height is None,
            r.max_width is None,
            r.max_height is None,
            r.resizable,
            r.center,
            !r.always_on_top,
            r.decorations,
            !r.transparent,
            r.shadow,
            r.devtools,
    {
        WindowConfig {
            label: String::new(),
            title: String::new(),
            url: String::new(),
            width: 800,
            height: 600,
            min_width: Option::None,
            min_height: Option::None,
            max_width: Option::None,
            max_height: Option::None,
            resizable: true,
            center: true,
            always_on_top: false,
            decorations: true,
            transparent: false,
            shadow: true,
            devtools: true,
        }
    }
}

/// The catalog contract: `c` is exactly the configuration of window type
/// `t`. Every window is decorated, opaque, shadowed, centred on creation and
/// created with developer tools available.
pub open spec fn spec_config_matches(t: WindowType, c: WindowConfig) -> bool {
    &&& c.label@ == t.spec_label()
    &&& c.title@ == t.spec_title()
    &&& c.url@ == t.spec_url()
    &&& c.width == t.spec_size().0
    &&& c.height == t.spec_size().1
    &&& c.min_width == Option::Some(t.spec_min_size().0)
    &&& c.min_height == Option::Some(t.spec_min_size().1)
    &&& c.max_width == match t.spec_max_size() {
        Option::Some(m) => Option::Some(m.0),
        Option::None => Option::None::<u32>,
    }
    &&& c.max_height == match t.spec_max_size() {
        Option::Some(m) => Option::Some(m.1),
        Option::None => Option::None::<u32>,
    }
    &&& c.resizable == t.spec_resizable()
    &&& c.center
    &&& c.always_on_top == t.spec_always_on_top()
    &&& c.decorations
    &&& !c.transparent
    &&& c.shadow
    &&& c.devtools
}

/// Builds the per-type creation configuration. Pure and total: every window
/// type has exactly one configuration, and it is never mutated at runtime.
pub struct WindowConfigManager;

impl WindowConfigManager {
    /// The configuration of `window_type`, with its size bounds consistent.
    pub fn get_config(window_type: WindowType) -> (r: WindowConfig)
        ensures
            spec_config_matches(window_type, r),
            r.wf(),
    {
        let (width, height) = window_type.size();
        let (min_width, min_height) = window_type.min_size();
        let (max_width, max_height) = match window_type.max_size() {
            Option::Some((w, h)) => (Option::Some(w), Option::Some(h)),
            Option::None => (Option::None, Option::None),
        };
        WindowConfig {
            label: window_type.as_str().to_owned(),
            title: window_type.title().to_owned(),
            url: window_type.url(),
            width,
            height,
            min_width: Option::Some(min_width),
            min_height: Option::Some(min_height),
            max_width,
            max_height,
            resizable: window_type.is_resizable(),
            center: true,
            always_on_top: window_type.always_on_top(),
            decorations: true,
            transparent: false,
            shadow: true,
            devtools: true,
        }
    }

    /// Resolves a content route to the URL the backend loads: the bundle
    /// root for "/", a fragment of the bundle entry page otherwise.
    pub fn get_url(path: &str) -> (r: String)
        ensures
            r@ == spec_url_of(path@),
    {
        let p: String = path.to_owned();
        let root: String = "/".to_owned();
        if p == root {
            "index.html".to_owned()
        } else {
            let base: String = "index.html#".to_owned();
            base.concat(path)
        }
    }
}

/// The URL that route `path` resolves to.
pub open spec fn spec_url_of(path: Seq<char>) -> Seq<char> {
    if path == "/"@ {
        "index.html"@
    } else {
        "index.html#"@ + path
    }
}

} // verus!
