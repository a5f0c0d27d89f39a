use vstd::prelude::*;

verus! {

/// Experimental features that can be switched on in the settings.
#[derive(Clone, Copy, Debug, PartialEq, Eq, Structural)]
pub enum FeatureFlag {
    /// Selecting several songs at once to queue, save or remove them.
    SelectMode,
    /// The "New Playlist" workflow in the sidebar.
    CreateNewPlaylist,
    /// Switching playback between Spotify Connect devices.
    DeviceSelector,
}

/// The settings key under which a flag is stored.
pub open spec fn flag_key(flag: FeatureFlag) -> Seq<char> {
    match flag {
        FeatureFlag::SelectMode => "feature-select-mode"@,
        FeatureFlag::CreateNewPlaylist => "feature-create-new-playlist"@,
        FeatureFlag::DeviceSelector => "feature-device-selector"@,
    }
}

/// The title under which a flag is shown to the user.
pub open spec fn flag_title(flag: FeatureFlag) -> Seq<char> {
    match flag {
        FeatureFlag::SelectMode => "Select Mode"@,
        FeatureFlag::CreateNewPlaylist => "Create New Playlist"@,
        FeatureFlag::DeviceSelector => "Device Selector"@,
    }
}

/// The longer description of a flag.
pub open spec fn flag_description(flag: FeatureFlag) -> Seq<char> {
    match flag {
        FeatureFlag::SelectMode =>
            "Enable selection mode to select multiple songs for queuing, saving, or removing."@,
        FeatureFlag::CreateNewPlaylist => "Enable the New Playlist button in the sidebar."@,
        FeatureFlag::DeviceSelector => "Enable the device selector in the Now Playing headerbar."@,
    }
}

impl FeatureFlag {
    /// Every flag, each once, in declaration order.
    pub fn all() -> (flags: [FeatureFlag; 3])
        ensures
            flags@ == seq![
                FeatureFlag::SelectMode,
                FeatureFlag::CreateNewPlaylist,
                FeatureFlag::DeviceSelector,
            ],
    {
        [FeatureFlag::SelectMode, FeatureFlag::CreateNewPlaylist, FeatureFlag::DeviceSelector]
    }

    pub fn key(&self) -> (k: &'static str)
        ensures
            k@ == flag_key(*self),
    {
        match self {
            FeatureFlag::SelectMode => "feature-select-mode",
            FeatureFlag::CreateNewPlaylist => "feature-create-new-playlist",
            FeatureFlag::DeviceSelector => "feature-device-selector",
        }
    }

    pub fn title(&self) -> (t: &'static str)
        ensures
            t@ == flag_title(*self),
    {
        match self {
            FeatureFlag::SelectMode => "Select Mode",
            FeatureFlag::CreateNewPlaylist => "Create New Playlist",
            FeatureFlag::DeviceSelector => "Device Selector",
        }
    }

    pub fn description(&self) -> (d: &'static str)
        ensures
            d@ == flag_description(*self),
    {
        match self {
            FeatureFlag::SelectMode => {
                "Enable selection mode to select multiple songs for queuing, saving, or removing."
            },
            FeatureFlag::CreateNewPlaylist => { "Enable the New Playlist button in the sidebar." },
            FeatureFlag::DeviceSelector => {
                "Enable the device selector in the Now Playing headerbar."
            },
        }
    }
}

/// The list of all flags holds every flag exactly once.
pub proof fn lemma_all_flags_listed(f: FeatureFlag)
    ensures
        ({
            let all = seq![FeatureFlag::SelectMode, FeatureFlag::CreateNewPlaylist, FeatureFlag::DeviceSelector];
            &&& all.contains(f)
            &&& forall|i: int, j: int| 0 <= i < j < all.len() ==> all[i] != all[j]
        }),
{
    let all = seq![FeatureFlag::SelectMode, FeatureFlag::CreateNewPlaylist, FeatureFlag::DeviceSelector];
    match f {
        FeatureFlag::SelectMode => assert(all[0] == f),
        FeatureFlag::CreateNewPlaylist => assert(all[1] == f),
        FeatureFlag::DeviceSelector => assert(all[2] == f),
    }
}

/// Two different flags are never stored under the same settings key.
pub proof fn lemma_flag_keys_distinct(a: FeatureFlag, b: FeatureFlag)
    requires
        a != b,
    ensures
        flag_key(a) != flag_key(b),
{
    reveal_strlit("feature-select-mode");
    reveal_strlit("feature-create-new-playlist");
    reveal_strlit("feature-device-selector");
    assert(flag_key(FeatureFlag::SelectMode).len() == 19);
    assert(flag_key(FeatureFlag::CreateNewPlaylist).len() == 27);
    assert(flag_key(FeatureFlag::DeviceSelector).len() == 23);
}

} // verus!
