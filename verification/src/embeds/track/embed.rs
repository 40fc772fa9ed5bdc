use vstd::prelude::*;

verus! {

// A track embed page's `__NEXT_DATA__` JSON.
#[derive(Clone, Debug, Default, PartialEq)]
pub struct TrackEmbedJsonData {
    pub props: Props,
}

#[derive(Clone, Debug, Default, PartialEq)]
pub struct Props {
    pub page_props: PageProps,
}

#[derive(Clone, Debug, Default, PartialEq)]
pub struct PageProps {
    pub state: State,
}

#[derive(Clone, Debug, Default, PartialEq)]
pub struct State {
    pub data: Data,
}

#[derive(Clone, Debug, Default, PartialEq)]
pub struct Data {
    pub entity: Entity,
}

#[derive(Clone, Debug, Default, PartialEq)]
pub struct Entity {
    pub type_field: String,
    pub name: String,
    pub uri: String,
    pub id: String,
    pub title: String,
    pub artists: Vec<Artist>,
    pub release_date: ReleaseDate,
    pub duration: i64,
    pub is_playable: bool,
    pub playability_reason: String,
    pub is_explicit: bool,
    pub is_nineteen_plus: bool,
    pub audio_preview: AudioPreview,
    pub has_video: bool,
    pub related_entity_uri: String,
    pub visual_identity: VisualIdentity,
}

#[derive(Clone, Debug, Default, PartialEq)]
pub struct Artist {
    pub name: String,
    pub uri: String,
}

#[derive(Clone, Debug, Default, PartialEq)]
pub struct ReleaseDate {
    pub iso_string: String,
}

#[derive(Clone, Debug, Default, PartialEq)]
pub struct AudioPreview {
    pub url: String,
}

#[derive(Clone, Debug, Default, PartialEq)]
pub struct VisualIdentity {
    pub background_base: BackgroundBase,
    pub background_tinted_base: BackgroundTintedBase,
    pub text_base: TextBase,
    pub text_bright_accent: TextBrightAccent,
    pub text_subdued: TextSubdued,
    pub image: Vec<Image>,
}
#[derive(Clone, Debug, Default, PartialEq)]
pub struct BackgroundBase {
    pub alpha: i64,
    pub blue: i64,
    pub green: i64,
    pub red: i64,
}

#[derive(Clone, Debug, Default, PartialEq)]
pub struct BackgroundTintedBase {
    pub alpha: i64,
    pub blue: i64,
    pub green: i64,
    pub red: i64,
}

#[derive(Clone, Debug, Default, PartialEq)]
pub struct TextBase {
    pub alpha: i64,
    pub blue: i64,
    pub green: i64,
    pub red: i64,
}

#[derive(Clone, Debug, Default, PartialEq)]
pub struct TextBrightAccent {
    pub alpha: i64,
    pub blue: i64,
    pub green: i64,
    pub red: i64,
}

#[derive(Clone, Debug, Default, PartialEq)]
pub struct TextSubdued {
    pub alpha: i64,
    pub blue: i64,
    pub green: i64,
    pub red: i64,
}

#[derive(Clone, Debug, Default, PartialEq)]
pub struct Image {
    pub url: String,
    pub max_height: i64,
    pub max_width: i64,
}

} // verus!
