//! Project-generation engine for Django projects: the recipe of user choices, the
//! rendering context templates read, version pinning and compatibility checks, and the
//! decisions of the template walk (which entries are skipped, how they are named, where
//! they may be written).

use vstd::prelude::*;

pub mod choices;
pub mod cli;
pub mod context;
pub mod engine;
pub mod error;
pub mod filters;
pub mod options;
pub mod paths;
pub mod recipe;
pub mod render;
pub mod text;
pub mod version_map;
pub mod versions;
pub mod wizard;

pub use context::{secret_key, Context, CtxValue};
pub use error::Error;
pub use options::{
    ApiLayer, CeleryBroker, CiProvider, ContainerSetup, CssFramework, DjangoVersion, Frontend,
    FrontendVariant, GraphDb, JsLanguage, License, Mode, ProdEmail, PythonVersion, RadixFlavor,
    RelationalDb, Storage, TypeChecker, VersionControl,
};
pub use recipe::Recipe;
pub use render::{RenderOptions, RenderReport};
pub use version_map::VersionMap;
pub use versions::{compat_check, resolve as resolve_versions, ResolveMode};

verus! {

} // verus!
