//! The folders that the system assigns to the user.
use crate::path::{FilePath, PathView};
use vstd::prelude::*;

verus! {

/// The user's folders, as far as the system could name them.
#[derive(Debug)]
pub struct BaseDirs {
    pub home: Option<FilePath>,
    pub config: Option<FilePath>,
    pub cache: Option<FilePath>,
    pub data_local: Option<FilePath>,
    pub pictures: Option<FilePath>,
    pub desktop: Option<FilePath>,
}

/// The contents of [`BaseDirs`].
#[verifier::ext_equal]
pub struct BaseDirsView {
    pub home: Option<PathView>,
    pub config: Option<PathView>,
    pub cache: Option<PathView>,
    pub data_local: Option<PathView>,
    pub pictures: Option<PathView>,
    pub desktop: Option<PathView>,
}

impl View for BaseDirs {
    type V = BaseDirsView;

    open spec fn view(&self) -> BaseDirsView {
        BaseDirsView {
            home: self.home.deep_view(),
            config: self.config.deep_view(),
            cache: self.cache.deep_view(),
            data_local: self.data_local.deep_view(),
            pictures: self.pictures.deep_view(),
            desktop: self.desktop.deep_view(),
        }
    }
}

} // verus!
