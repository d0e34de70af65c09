//! The asset manifest the boot scene walks through while the intro plays,
//! and the loading progress it keeps: one asset per tick, then done.

use vstd::prelude::*;

verus! {

#[derive(PartialEq, Eq, Structural, Clone, Copy, Debug)]
pub enum AssetType {
    Texture,
    Sound,
}

pub struct AssetDefinition {
    pub name: &'static str,
    pub path: &'static str,
    pub asset_type: AssetType,
}

/// How many assets the manifest lists.
pub const ASSET_COUNT: usize = 20;

/// The asset manifest: what to load, from where, and as which kind.
pub fn asset_list() -> (list: Vec<AssetDefinition>)
    ensures
        list@.len() == ASSET_COUNT,
{
    let mut list: Vec<AssetDefinition> = Vec::new();
    list.push(AssetDefinition {
        name: "Player Front",
        path: "./assets/chara1.png",
        asset_type: AssetType::Texture,
    });
    list.push(AssetDefinition {
        name: "Player Left",
        path: "./assets/chara_left.png",
        asset_type: AssetType::Texture,
    });
    list.push(AssetDefinition {
        name: "Player Right",
        path: "./assets/chara_right.png",
        asset_type: AssetType::Texture,
    });
    list.push(AssetDefinition {
        name: "City Background",
        path: "./assets/city_bg.png",
        asset_type: AssetType::Texture,
    });
    list.push(AssetDefinition {
        name: "Gaster Standing",
        path: "./assets/npc_gaster_standing.png",
        asset_type: AssetType::Texture,
    });
    list.push(AssetDefinition {
        name: "Gaster Talking",
        path: "./assets/npc_gaster_talking.png",
        asset_type: AssetType::Texture,
    });
    list.push(AssetDefinition {
        name: "Rarity",
        path: "./assets/rarity_galla_right.png",
        asset_type: AssetType::Texture,
    });
    list.push(AssetDefinition {
        name: "Eilish",
        path: "./assets/eilish.png",
        asset_type: AssetType::Texture,
    });
    list.push(AssetDefinition {
        name: "Sans",
        path: "./assets/sans1.png",
        asset_type: AssetType::Texture,
    });
    list.push(AssetDefinition {
        name: "Sans Combat",
        path: "./assets/sans1.png",
        asset_type: AssetType::Texture,
    });
    list.push(AssetDefinition {
        name: "Sans Shrug",
        path: "./assets/sans_shrug.png",
        asset_type: AssetType::Texture,
    });
    list.push(AssetDefinition {
        name: "Sans Handshake",
        path: "./assets/sans_frisk_handshake.png",
        asset_type: AssetType::Texture,
    });
    list.push(AssetDefinition {
        name: "Heart",
        path: "./assets/heart.png",
        asset_type: AssetType::Texture,
    });
    list.push(AssetDefinition {
        name: "Music Box",
        path: "./assets/musicbox.png",
        asset_type: AssetType::Texture,
    });
    list.push(AssetDefinition {
        name: "Music Track",
        path: "./assets/g6_rmx.mp3",
        asset_type: AssetType::Sound,
    });
    list.push(AssetDefinition {
        name: "Ayasofya Entrance",
        path: "./assets/ayasofya_giris.jpg",
        asset_type: AssetType::Texture,
    });
    list.push(AssetDefinition {
        name: "Ayasofya Interior",
        path: "./assets/ayasofya_ici.jpg",
        asset_type: AssetType::Texture,
    });
    list.push(AssetDefinition {
        name: "Bone",
        path: "./assets/bone.png",
        asset_type: AssetType::Texture,
    });
    list.push(AssetDefinition {
        name: "Player Fes",
        path: "./assets/chara_fes.png",
        asset_type: AssetType::Texture,
    });
    list.push(AssetDefinition {
        name: "Player Takke",
        path: "./assets/chara_mavi_takke.png",
        asset_type: AssetType::Texture,
    });
    list
}

/// Where the boot scene stands in loading the manifest: one asset is
/// loaded per tick, and once past the end the loading is complete.
pub struct LoadProgress {
    pub asset_index: usize,
    pub loading_complete: bool,
}

impl LoadProgress {
    pub fn new() -> (p: Self)
        ensures
            p.asset_index == 0,
            !p.loading_complete,
    {
        LoadProgress { asset_index: 0, loading_complete: false }
    }

    /// One tick of loading: which asset to load now, if any; past the end
    /// of the manifest, loading is complete and stays so.
    pub fn step(&mut self, total: usize) -> (load_now: Option<usize>)
        ensures
            old(self).loading_complete ==> *final(self) == *old(self) && load_now is None,
            !old(self).loading_complete && old(self).asset_index < total ==> load_now == Some(
                old(self).asset_index,
            ) && *final(self) == (LoadProgress {
                asset_index: (old(self).asset_index + 1) as usize,
                loading_complete: false,
            }),
            !old(self).loading_complete && old(self).asset_index >= total ==> load_now is None
                && *final(self) == (LoadProgress {
                asset_index: old(self).asset_index,
                loading_complete: true,
            }),
    {
        if self.loading_complete {
            None
        } else if self.asset_index < total {
            let now = self.asset_index;
            self.asset_index = self.asset_index + 1;
            Some(now)
        } else {
            self.loading_complete = true;
            None
        }
    }
}

} // verus!
