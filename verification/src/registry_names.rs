//! The registry gives every entity a channel name of its own.
//!
//! The proof indexes the registry: [`entry_index`] maps each channel name
//! back to its position, so two positions with the same name are the same
//! position.

use crate::bytes::{lemma_utf8_injective, utf8};
use crate::da51_channels::registry_entries;
use crate::private_channel::{lemma_distinct_channels_distinct_preimages, private_preimage};
use vstd::prelude::*;

verus! {

/// The position of `name` among the registry's channel names, or -1 where
/// it is not one of them.
pub open spec fn entry_index(name: Seq<char>) -> int {
    if name == "solfunmeme-dioxus"@ {
        0
    } else if name == "solfunmeme-service"@ {
        1
    } else if name == "kant-pastebin"@ {
        2
    } else if name == "erdfa-publish"@ {
        3
    } else if name == "kagenti-daemon"@ {
        4
    } else if name == "kagenti-portal"@ {
        5
    } else if name == "jocko-training"@ {
        6
    } else if name == "moltis"@ {
        7
    } else if name == "fractran-generator"@ {
        8
    } else if name == "git-events-consumer"@ {
        9
    } else if name == "prometheus"@ {
        10
    } else if name == "jaeger"@ {
        11
    } else if name == "rabbitmq"@ {
        12
    } else if name == "forgejo"@ {
        13
    } else if name == "zos-noc-manager"@ {
        14
    } else if name == "zos-minimal-server"@ {
        15
    } else if name == "leech-lattice-24"@ {
        16
    } else if name == "otp-bbs-bridge"@ {
        17
    } else if name == "solfunmeme-mesh-sync"@ {
        18
    } else if name == "rust-compiler-zkp"@ {
        19
    } else if name == "zkperf"@ {
        20
    } else if name == "zos-plugin-monster"@ {
        21
    } else if name == "zos-plugin-mcp"@ {
        22
    } else if name == "zos-plugin-rust-parser"@ {
        23
    } else if name == "zos-plugin-orbits"@ {
        24
    } else if name == "zos-plugin-charts"@ {
        25
    } else if name == "zos-plugin-bert"@ {
        26
    } else if name == "zos-plugin-ooda-noc"@ {
        27
    } else if name == "zos-plugin-podping"@ {
        28
    } else if name == "zos-plugin-monster-manifold"@ {
        29
    } else if name == "zos-plugin-snm-atlas"@ {
        30
    } else if name == "zos-plugin-system-discovery"@ {
        31
    } else if name == "zos-plugin-harbor"@ {
        32
    } else if name == "zos-plugin-omnisearch"@ {
        33
    } else if name == "zos-plugin-a11y-gui"@ {
        34
    } else if name == "zos-plugin-github-manager"@ {
        35
    } else if name == "zos-plugin-noc-manager"@ {
        36
    } else if name == "zos-plugin-plugin-registry"@ {
        37
    } else if name == "zos-plugin-bm25"@ {
        38
    } else if name == "zos-plugin-eliza-rs"@ {
        39
    } else if name == "zos-plugin-emoji-lang"@ {
        40
    } else if name == "zos-plugin-extractous"@ {
        41
    } else if name == "zos-plugin-git"@ {
        42
    } else if name == "zos-plugin-gline-rs"@ {
        43
    } else if name == "zos-plugin-json-ld"@ {
        44
    } else if name == "zos-plugin-keyword-extraction"@ {
        45
    } else if name == "zos-plugin-layered-nlp"@ {
        46
    } else if name == "zos-plugin-llms-from-scratch"@ {
        47
    } else if name == "zos-plugin-model2vec"@ {
        48
    } else if name == "zos-plugin-nlprule"@ {
        49
    } else if name == "zos-plugin-quickwit"@ {
        50
    } else if name == "zos-plugin-rhai"@ {
        51
    } else if name == "zos-plugin-rust-sbert"@ {
        52
    } else if name == "zos-plugin-rust-sentence-transformers"@ {
        53
    } else if name == "zos-plugin-s3"@ {
        54
    } else if name == "zos-plugin-solana-airdrop"@ {
        55
    } else if name == "zos-plugin-steel"@ {
        56
    } else if name == "zos-plugin-tongrams"@ {
        57
    } else if name == "zos-plugin-vaporetto"@ {
        58
    } else if name == "zos-plugin-vibrato"@ {
        59
    } else if name == "zos-plugin-vtext"@ {
        60
    } else if name == "zos-plugin-zip-export"@ {
        61
    } else if name == "kagenti-solfunmeme-test.timer"@ {
        62
    } else if name == "kagenti-solfunmeme-zkperf.timer"@ {
        63
    } else if name == "kagenti-solfunmeme-roundrobin.timer"@ {
        64
    } else if name == "jocko-training.timer"@ {
        65
    } else if name == "solfunmeme-mesh-sync.timer"@ {
        66
    } else if name == "solfunmeme-crawl.timer"@ {
        67
    } else if name == "solfunmeme-prove.timer"@ {
        68
    } else {
        -1
    }
}

/// Each channel name of positions 0 to 3 maps back to its position.
proof fn lemma_app_positions()
    ensures
        forall|k: int| 0 <= k < 4 ==> entry_index(#[trigger] registry_entries()[k].0) == k,
{
    reveal_strlit("erdfa-publish");
    reveal_strlit("kant-pastebin");
    reveal_strlit("solfunmeme-dioxus");
    reveal_strlit("solfunmeme-service");
    assert(registry_entries()[0].0 =~= "solfunmeme-dioxus"@);
    assert(entry_index(registry_entries()[0].0) == 0);
    assert(registry_entries()[1].0 =~= "solfunmeme-service"@);
    assert(entry_index(registry_entries()[1].0) == 1);
    assert(registry_entries()[2].0 =~= "kant-pastebin"@);
    assert(entry_index(registry_entries()[2].0) == 2);
    assert(registry_entries()[3].0 =~= "erdfa-publish"@);
    assert("erdfa-publish"@[0] != "kant-pastebin"@[0]);
    assert(entry_index(registry_entries()[3].0) == 3);
    assert forall|k: int| 0 <= k < 4 implies entry_index(
        #[trigger] registry_entries()[k].0,
    ) == k by {
        assert(k == 0 || k == 1 || k == 2 || k == 3);
    }
}

/// Each channel name of positions 4 to 9 maps back to its position.
proof fn lemma_agent_positions()
    ensures
        forall|k: int| 4 <= k < 10 ==> entry_index(#[trigger] registry_entries()[k].0) == k,
{
    reveal_strlit("erdfa-publish");
    reveal_strlit("fractran-generator");
    reveal_strlit("git-events-consumer");
    reveal_strlit("jocko-training");
    reveal_strlit("kagenti-daemon");
    reveal_strlit("kagenti-portal");
    reveal_strlit("kant-pastebin");
    reveal_strlit("moltis");
    reveal_strlit("solfunmeme-dioxus");
    reveal_strlit("solfunmeme-service");
    assert(registry_entries()[4].0 =~= "kagenti-daemon"@);
    assert(entry_index(registry_entries()[4].0) == 4);
    assert(registry_entries()[5].0 =~= "kagenti-portal"@);
    assert("kagenti-portal"@[8] != "kagenti-daemon"@[8]);
    assert(entry_index(registry_entries()[5].0) == 5);
    assert(registry_entries()[6].0 =~= "jocko-training"@);
    assert("jocko-training"@[0] != "kagenti-daemon"@[0]);
    assert("jocko-training"@[0] != "kagenti-portal"@[0]);
    assert(entry_index(registry_entries()[6].0) == 6);
    assert(registry_entries()[7].0 =~= "moltis"@);
    assert(entry_index(registry_entries()[7].0) == 7);
    assert(registry_entries()[8].0 =~= "fractran-generator"@);
    assert("fractran-generator"@[0] != "solfunmeme-service"@[0]);
    assert(entry_index(registry_entries()[8].0) == 8);
    assert(registry_entries()[9].0 =~= "git-events-consumer"@);
    assert(entry_index(registry_entries()[9].0) == 9);
    assert forall|k: int| 4 <= k < 10 implies entry_index(
        #[trigger] registry_entries()[k].0,
    ) == k by {
        assert(k == 4 || k == 5 || k == 6 || k == 7 || k == 8 || k == 9);
    }
}

/// Each channel name of positions 10 to 20 maps back to its position.
proof fn lemma_service_positions()
    ensures
        forall|k: int| 10 <= k < 21 ==> entry_index(#[trigger] registry_entries()[k].0) == k,
{
    reveal_strlit("erdfa-publish");
    reveal_strlit("forgejo");
    reveal_strlit("fractran-generator");
    reveal_strlit("git-events-consumer");
    reveal_strlit("jaeger");
    reveal_strlit("jocko-training");
    reveal_strlit("kagenti-daemon");
    reveal_strlit("kagenti-portal");
    reveal_strlit("kant-pastebin");
    reveal_strlit("leech-lattice-24");
    reveal_strlit("moltis");
    reveal_strlit("otp-bbs-bridge");
    reveal_strlit("prometheus");
    reveal_strlit("rabbitmq");
    reveal_strlit("rust-compiler-zkp");
    reveal_strlit("solfunmeme-dioxus");
    reveal_strlit("solfunmeme-mesh-sync");
    reveal_strlit("solfunmeme-service");
    reveal_strlit("zkperf");
    reveal_strlit("zos-minimal-server");
    reveal_strlit("zos-noc-manager");
    assert(registry_entries()[10].0 =~= "prometheus"@);
    assert(entry_index(registry_entries()[10].0) == 10);
    assert(registry_entries()[11].0 =~= "jaeger"@);
    assert("jaeger"@[0] != "moltis"@[0]);
    assert(entry_index(registry_entries()[11].0) == 11);
    assert(registry_entries()[12].0 =~= "rabbitmq"@);
    assert(entry_index(registry_entries()[12].0) == 12);
    assert(registry_entries()[13].0 =~= "forgejo"@);
    assert(entry_index(registry_entries()[13].0) == 13);
    assert(registry_entries()[14].0 =~= "zos-noc-manager"@);
    assert(entry_index(registry_entries()[14].0) == 14);
    assert(registry_entries()[15].0 =~= "zos-minimal-server"@);
    assert("zos-minimal-server"@[0] != "solfunmeme-service"@[0]);
    assert("zos-minimal-server"@[0] != "fractran-generator"@[0]);
    assert(entry_index(registry_entries()[15].0) == 15);
    assert(registry_entries()[16].0 =~= "leech-lattice-24"@);
    assert(entry_index(registry_entries()[16].0) == 16);
    assert(registry_entries()[17].0 =~= "otp-bbs-bridge"@);
    assert("otp-bbs-bridge"@[0] != "kagenti-daemon"@[0]);
    assert("otp-bbs-bridge"@[0] != "kagenti-portal"@[0]);
    assert("otp-bbs-bridge"@[0] != "jocko-training"@[0]);
    assert(entry_index(registry_entries()[17].0) == 17);
    assert(registry_entries()[18].0 =~= "solfunmeme-mesh-sync"@);
    assert(entry_index(registry_entries()[18].0) == 18);
    assert(registry_entries()[19].0 =~= "rust-compiler-zkp"@);
    assert("rust-compiler-zkp"@[0] != "solfunmeme-dioxus"@[0]);
    assert(entry_index(registry_entries()[19].0) == 19);
    assert(registry_entries()[20].0 =~= "zkperf"@);
    assert("zkperf"@[0] != "moltis"@[0]);
    assert("zkperf"@[0] != "jaeger"@[0]);
    assert(entry_index(registry_entries()[20].0) == 20);
    assert forall|k: int| 10 <= k < 21 implies entry_index(
        #[trigger] registry_entries()[k].0,
    ) == k by {
        assert(k == 10 || k == 11 || k == 12 || k == 13 || k == 14 || k == 15 || k == 16 || k == 17 || k == 18 || k == 19 || k == 20);
    }
}

/// Each channel name of positions 21 to 61 maps back to its position.
proof fn lemma_plugin_positions()
    ensures
        forall|k: int| 21 <= k < 62 ==> entry_index(#[trigger] registry_entries()[k].0) == k,
{
    reveal_strlit("a11y-gui");
    reveal_strlit("bert");
    reveal_strlit("bm25");
    reveal_strlit("charts");
    reveal_strlit("eliza-rs");
    reveal_strlit("emoji-lang");
    reveal_strlit("erdfa-publish");
    reveal_strlit("extractous");
    reveal_strlit("forgejo");
    reveal_strlit("fractran-generator");
    reveal_strlit("git");
    reveal_strlit("git-events-consumer");
    reveal_strlit("github-manager");
    reveal_strlit("gline-rs");
    reveal_strlit("harbor");
    reveal_strlit("jaeger");
    reveal_strlit("jocko-training");
    reveal_strlit("json-ld");
    reveal_strlit("kagenti-daemon");
    reveal_strlit("kagenti-portal");
    reveal_strlit("kant-pastebin");
    reveal_strlit("keyword-extraction");
    reveal_strlit("layered-nlp");
    reveal_strlit("leech-lattice-24");
    reveal_strlit("llms-from-scratch");
    reveal_strlit("mcp");
    reveal_strlit("model2vec");
    reveal_strlit("moltis");
    reveal_strlit("monster");
    reveal_strlit("monster-manifold");
    reveal_strlit("nlprule");
    reveal_strlit("noc-manager");
    reveal_strlit("omnisearch");
    reveal_strlit("ooda-noc");
    reveal_strlit("orbits");
    reveal_strlit("otp-bbs-bridge");
    reveal_strlit("plugin-registry");
    reveal_strlit("podping");
    reveal_strlit("prometheus");
    reveal_strlit("quickwit");
    reveal_strlit("rabbitmq");
    reveal_strlit("rhai");
    reveal_strlit("rust-compiler-zkp");
    reveal_strlit("rust-parser");
    reveal_strlit("rust-sbert");
    reveal_strlit("rust-sentence-transformers");
    reveal_strlit("s3");
    reveal_strlit("snm-atlas");
    reveal_strlit("solana-airdrop");
    reveal_strlit("solfunmeme-dioxus");
    reveal_strlit("solfunmeme-mesh-sync");
    reveal_strlit("solfunmeme-service");
    reveal_strlit("steel");
    reveal_strlit("system-discovery");
    reveal_strlit("tongrams");
    reveal_strlit("vaporetto");
    reveal_strlit("vibrato");
    reveal_strlit("vtext");
    reveal_strlit("zip-export");
    reveal_strlit("zkperf");
    reveal_strlit("zos-minimal-server");
    reveal_strlit("zos-noc-manager");
    reveal_strlit("zos-plugin-");
    reveal_strlit("zos-plugin-a11y-gui");
    reveal_strlit("zos-plugin-bert");
    reveal_strlit("zos-plugin-bm25");
    reveal_strlit("zos-plugin-charts");
    reveal_strlit("zos-plugin-eliza-rs");
    reveal_strlit("zos-plugin-emoji-lang");
    reveal_strlit("zos-plugin-extractous");
    reveal_strlit("zos-plugin-git");
    reveal_strlit("zos-plugin-github-manager");
    reveal_strlit("zos-plugin-gline-rs");
    reveal_strlit("zos-plugin-harbor");
    reveal_strlit("zos-plugin-json-ld");
    reveal_strlit("zos-plugin-keyword-extraction");
    reveal_strlit("zos-plugin-layered-nlp");
    reveal_strlit("zos-plugin-llms-from-scratch");
    reveal_strlit("zos-plugin-mcp");
    reveal_strlit("zos-plugin-model2vec");
    reveal_strlit("zos-plugin-monster");
    reveal_strlit("zos-plugin-monster-manifold");
    reveal_strlit("zos-plugin-nlprule");
    reveal_strlit("zos-plugin-noc-manager");
    reveal_strlit("zos-plugin-omnisearch");
    reveal_strlit("zos-plugin-ooda-noc");
    reveal_strlit("zos-plugin-orbits");
    reveal_strlit("zos-plugin-plugin-registry");
    reveal_strlit("zos-plugin-podping");
    reveal_strlit("zos-plugin-quickwit");
    reveal_strlit("zos-plugin-rhai");
    reveal_strlit("zos-plugin-rust-parser");
    reveal_strlit("zos-plugin-rust-sbert");
    reveal_strlit("zos-plugin-rust-sentence-transformers");
    reveal_strlit("zos-plugin-s3");
    reveal_strlit("zos-plugin-snm-atlas");
    reveal_strlit("zos-plugin-solana-airdrop");
    reveal_strlit("zos-plugin-steel");
    reveal_strlit("zos-plugin-system-discovery");
    reveal_strlit("zos-plugin-tongrams");
    reveal_strlit("zos-plugin-vaporetto");
    reveal_strlit("zos-plugin-vibrato");
    reveal_strlit("zos-plugin-vtext");
    reveal_strlit("zos-plugin-zip-export");
    assert(registry_entries()[21].0 =~= "zos-plugin-monster"@);
    assert("zos-plugin-monster"@[0] != "solfunmeme-service"@[0]);
    assert("zos-plugin-monster"@[0] != "fractran-generator"@[0]);
    assert("zos-plugin-monster"@[4] != "zos-minimal-server"@[4]);
    assert(entry_index(registry_entries()[21].0) == 21);
    assert(registry_entries()[22].0 =~= "zos-plugin-mcp"@);
    assert("zos-plugin-mcp"@[0] != "kagenti-daemon"@[0]);
    assert("zos-plugin-mcp"@[0] != "kagenti-portal"@[0]);
    assert("zos-plugin-mcp"@[0] != "jocko-training"@[0]);
    assert("zos-plugin-mcp"@[0] != "otp-bbs-bridge"@[0]);
    assert(entry_index(registry_entries()[22].0) == 22);
    assert(registry_entries()[23].0 =~= "zos-plugin-rust-parser"@);
    assert(entry_index(registry_entries()[23].0) == 23);
    assert(registry_entries()[24].0 =~= "zos-plugin-orbits"@);
    assert("zos-plugin-orbits"@[0] != "solfunmeme-dioxus"@[0]);
    assert("zos-plugin-orbits"@[0] != "rust-compiler-zkp"@[0]);
    assert(entry_index(registry_entries()[24].0) == 24);
    assert(registry_entries()[25].0 =~= "zos-plugin-charts"@);
    assert("zos-plugin-charts"@[0] != "solfunmeme-dioxus"@[0]);
    assert("zos-plugin-charts"@[0] != "rust-compiler-zkp"@[0]);
    assert("zos-plugin-charts"@[11] != "zos-plugin-orbits"@[11]);
    assert(entry_index(registry_entries()[25].0) == 25);
    assert(registry_entries()[26].0 =~= "zos-plugin-bert"@);
    assert("zos-plugin-bert"@[4] != "zos-noc-manager"@[4]);
    assert(entry_index(registry_entries()[26].0) == 26);
    assert(registry_entries()[27].0 =~= "zos-plugin-ooda-noc"@);
    assert("zos-plugin-ooda-noc"@[0] != "git-events-consumer"@[0]);
    assert(entry_index(registry_entries()[27].0) == 27);
    assert(registry_entries()[28].0 =~= "zos-plugin-podping"@);
    assert("zos-plugin-podping"@[0] != "solfunmeme-service"@[0]);
    assert("zos-plugin-podping"@[0] != "fractran-generator"@[0]);
    assert("zos-plugin-podping"@[4] != "zos-minimal-server"@[4]);
    assert("zos-plugin-podping"@[11] != "zos-plugin-monster"@[11]);
    assert(entry_index(registry_entries()[28].0) == 28);
    assert(registry_entries()[29].0 =~= "zos-plugin-monster-manifold"@);
    assert(entry_index(registry_entries()[29].0) == 29);
    assert(registry_entries()[30].0 =~= "zos-plugin-snm-atlas"@);
    assert("zos-plugin-snm-atlas"@[0] != "solfunmeme-mesh-sync"@[0]);
    assert(entry_index(registry_entries()[30].0) == 30);
    assert(registry_entries()[31].0 =~= "zos-plugin-system-discovery"@);
    assert("zos-plugin-system-discovery"@[11] != "zos-plugin-monster-manifold"@[11]);
    assert(entry_index(registry_entries()[31].0) == 31);
    assert(registry_entries()[32].0 =~= "zos-plugin-harbor"@);
    assert("zos-plugin-harbor"@[0] != "solfunmeme-dioxus"@[0]);
    assert("zos-plugin-harbor"@[0] != "rust-compiler-zkp"@[0]);
    assert("zos-plugin-harbor"@[11] != "zos-plugin-orbits"@[11]);
    assert("zos-plugin-harbor"@[11] != "zos-plugin-charts"@[11]);
    assert(entry_index(registry_entries()[32].0) == 32);
    assert(registry_entries()[33].0 =~= "zos-plugin-omnisearch"@);
    assert(entry_index(registry_entries()[33].0) == 33);
    assert(registry_entries()[34].0 =~= "zos-plugin-a11y-gui"@);
    assert("zos-plugin-a11y-gui"@[0] != "git-events-consumer"@[0]);
    assert("zos-plugin-a11y-gui"@[11] != "zos-plugin-ooda-noc"@[11]);
    assert(entry_index(registry_entries()[34].0) == 34);
    assert(registry_entries()[35].0 =~= "zos-plugin-github-manager"@);
    assert(entry_index(registry_entries()[35].0) == 35);
    assert(registry_entries()[36].0 =~= "zos-plugin-noc-manager"@);
    assert("zos-plugin-noc-manager"@[11] != "zos-plugin-rust-parser"@[11]);
    assert(entry_index(registry_entries()[36].0) == 36);
    assert(registry_entries()[37].0 =~= "zos-plugin-plugin-registry"@);
    assert(entry_index(registry_entries()[37].0) == 37);
    assert(registry_entries()[38].0 =~= "zos-plugin-bm25"@);
    assert("zos-plugin-bm25"@[4] != "zos-noc-manager"@[4]);
    assert("zos-plugin-bm25"@[12] != "zos-plugin-bert"@[12]);
    assert(entry_index(registry_entries()[38].0) == 38);
    assert(registry_entries()[39].0 =~= "zos-plugin-eliza-rs"@);
    assert("zos-plugin-eliza-rs"@[0] != "git-events-consumer"@[0]);
    assert("zos-plugin-eliza-rs"@[11] != "zos-plugin-ooda-noc"@[11]);
    assert("zos-plugin-eliza-rs"@[11] != "zos-plugin-a11y-gui"@[11]);
    assert(entry_index(registry_entries()[39].0) == 39);
    assert(registry_entries()[40].0 =~= "zos-plugin-emoji-lang"@);
    assert("zos-plugin-emoji-lang"@[11] != "zos-plugin-omnisearch"@[11]);
    assert(entry_index(registry_entries()[40].0) == 40);
    assert(registry_entries()[41].0 =~= "zos-plugin-extractous"@);
    assert("zos-plugin-extractous"@[11] != "zos-plugin-omnisearch"@[11]);
    assert("zos-plugin-extractous"@[12] != "zos-plugin-emoji-lang"@[12]);
    assert(entry_index(registry_entries()[41].0) == 41);
    assert(registry_entries()[42].0 =~= "zos-plugin-git"@);
    assert("zos-plugin-git"@[0] != "kagenti-daemon"@[0]);
    assert("zos-plugin-git"@[0] != "kagenti-portal"@[0]);
    assert("zos-plugin-git"@[0] != "jocko-training"@[0]);
    assert("zos-plugin-git"@[0] != "otp-bbs-bridge"@[0]);
    assert("zos-plugin-git"@[11] != "zos-plugin-mcp"@[11]);
    assert(entry_index(registry_entries()[42].0) == 42);
    assert(registry_entries()[43].0 =~= "zos-plugin-gline-rs"@);
    assert("zos-plugin-gline-rs"@[0] != "git-events-consumer"@[0]);
    assert("zos-plugin-gline-rs"@[11] != "zos-plugin-ooda-noc"@[11]);
    assert("zos-plugin-gline-rs"@[11] != "zos-plugin-a11y-gui"@[11]);
    assert("zos-plugin-gline-rs"@[11] != "zos-plugin-eliza-rs"@[11]);
    assert(entry_index(registry_entries()[43].0) == 43);
    assert(registry_entries()[44].0 =~= "zos-plugin-json-ld"@);
    assert("zos-plugin-json-ld"@[0] != "solfunmeme-service"@[0]);
    assert("zos-plugin-json-ld"@[0] != "fractran-generator"@[0]);
    assert("zos-plugin-json-ld"@[4] != "zos-minimal-server"@[4]);
    assert("zos-plugin-json-ld"@[11] != "zos-plugin-monster"@[11]);
    assert("zos-plugin-json-ld"@[11] != "zos-plugin-podping"@[11]);
    assert(entry_index(registry_entries()[44].0) == 44);
    assert(registry_entries()[45].0 =~= "zos-plugin-keyword-extraction"@);
    assert(entry_index(registry_entries()[45].0) == 45);
    assert(registry_entries()[46].0 =~= "zos-plugin-layered-nlp"@);
    assert("zos-plugin-layered-nlp"@[11] != "zos-plugin-rust-parser"@[11]);
    assert("zos-plugin-layered-nlp"@[11] != "zos-plugin-noc-manager"@[11]);
    assert(entry_index(registry_entries()[46].0) == 46);
    assert(registry_entries()[47].0 =~= "zos-plugin-llms-from-scratch"@);
    assert(entry_index(registry_entries()[47].0) == 47);
    assert(registry_entries()[48].0 =~= "zos-plugin-model2vec"@);
    assert("zos-plugin-model2vec"@[0] != "solfunmeme-mesh-sync"@[0]);
    assert("zos-plugin-model2vec"@[11] != "zos-plugin-snm-atlas"@[11]);
    assert(entry_index(registry_entries()[48].0) == 48);
    assert(registry_entries()[49].0 =~= "zos-plugin-nlprule"@);
    assert("zos-plugin-nlprule"@[0] != "solfunmeme-service"@[0]);
    assert("zos-plugin-nlprule"@[0] != "fractran-generator"@[0]);
    assert("zos-plugin-nlprule"@[4] != "zos-minimal-server"@[4]);
    assert("zos-plugin-nlprule"@[11] != "zos-plugin-monster"@[11]);
    assert("zos-plugin-nlprule"@[11] != "zos-plugin-podping"@[11]);
    assert("zos-plugin-nlprule"@[11] != "zos-plugin-json-ld"@[11]);
    assert(entry_index(registry_entries()[49].0) == 49);
    assert(registry_entries()[50].0 =~= "zos-plugin-quickwit"@);
    assert("zos-plugin-quickwit"@[0] != "git-events-consumer"@[0]);
    assert("zos-plugin-quickwit"@[11] != "zos-plugin-ooda-noc"@[11]);
    assert("zos-plugin-quickwit"@[11] != "zos-plugin-a11y-gui"@[11]);
    assert("zos-plugin-quickwit"@[11] != "zos-plugin-eliza-rs"@[11]);
    assert("zos-plugin-quickwit"@[11] != "zos-plugin-gline-rs"@[11]);
    assert(entry_index(registry_entries()[50].0) == 50);
    assert(registry_entries()[51].0 =~= "zos-plugin-rhai"@);
    assert("zos-plugin-rhai"@[4] != "zos-noc-manager"@[4]);
    assert("zos-plugin-rhai"@[11] != "zos-plugin-bert"@[11]);
    assert("zos-plugin-rhai"@[11] != "zos-plugin-bm25"@[11]);
    assert(entry_index(registry_entries()[51].0) == 51);
    assert(registry_entries()[52].0 =~= "zos-plugin-rust-sbert"@);
    assert("zos-plugin-rust-sbert"@[11] != "zos-plugin-omnisearch"@[11]);
    assert("zos-plugin-rust-sbert"@[11] != "zos-plugin-emoji-lang"@[11]);
    assert("zos-plugin-rust-sbert"@[11] != "zos-plugin-extractous"@[11]);
    assert(entry_index(registry_entries()[52].0) == 52);
    assert(registry_entries()[53].0 =~= "zos-plugin-rust-sentence-transformers"@);
    assert(entry_index(registry_entries()[53].0) == 53);
    assert(registry_entries()[54].0 =~= "zos-plugin-s3"@);
    assert("zos-plugin-s3"@[0] != "kant-pastebin"@[0]);
    assert("zos-plugin-s3"@[0] != "erdfa-publish"@[0]);
    assert(entry_index(registry_entries()[54].0) == 54);
    assert(registry_entries()[55].0 =~= "zos-plugin-solana-airdrop"@);
    assert("zos-plugin-solana-airdrop"@[11] != "zos-plugin-github-manager"@[11]);
    assert(entry_index(registry_entries()[55].0) == 55);
    assert(registry_entries()[56].0 =~= "zos-plugin-steel"@);
    assert("zos-plugin-steel"@[0] != "leech-lattice-24"@[0]);
    assert(entry_index(registry_entries()[56].0) == 56);
    assert(registry_entries()[57].0 =~= "zos-plugin-tongrams"@);
    assert("zos-plugin-tongrams"@[0] != "git-events-consumer"@[0]);
    assert("zos-plugin-tongrams"@[11] != "zos-plugin-ooda-noc"@[11]);
    assert("zos-plugin-tongrams"@[11] != "zos-plugin-a11y-gui"@[11]);
    assert("zos-plugin-tongrams"@[11] != "zos-plugin-eliza-rs"@[11]);
    assert("zos-plugin-tongrams"@[11] != "zos-plugin-gline-rs"@[11]);
    assert("zos-plugin-tongrams"@[11] != "zos-plugin-quickwit"@[11]);
    assert(entry_index(registry_entries()[57].0) == 57);
    assert(registry_entries()[58].0 =~= "zos-plugin-vaporetto"@);
    assert("zos-plugin-vaporetto"@[0] != "solfunmeme-mesh-sync"@[0]);
    assert("zos-plugin-vaporetto"@[11] != "zos-plugin-snm-atlas"@[11]);
    assert("zos-plugin-vaporetto"@[11] != "zos-plugin-model2vec"@[11]);
    assert(entry_index(registry_entries()[58].0) == 58);
    assert(registry_entries()[59].0 =~= "zos-plugin-vibrato"@);
    assert("zos-plugin-vibrato"@[0] != "solfunmeme-service"@[0]);
    assert("zos-plugin-vibrato"@[0] != "fractran-generator"@[0]);
    assert("zos-plugin-vibrato"@[4] != "zos-minimal-server"@[4]);
    assert("zos-plugin-vibrato"@[11] != "zos-plugin-monster"@[11]);
    assert("zos-plugin-vibrato"@[11] != "zos-plugin-podping"@[11]);
    assert("zos-plugin-vibrato"@[11] != "zos-plugin-json-ld"@[11]);
    assert("zos-plugin-vibrato"@[11] != "zos-plugin-nlprule"@[11]);
    assert(entry_index(registry_entries()[59].0) == 59);
    assert(registry_entries()[60].0 =~= "zos-plugin-vtext"@);
    assert("zos-plugin-vtext"@[0] != "leech-lattice-24"@[0]);
    assert("zos-plugin-vtext"@[11] != "zos-plugin-steel"@[11]);
    assert(entry_index(registry_entries()[60].0) == 60);
    assert(registry_entries()[61].0 =~= "zos-plugin-zip-export"@);
    assert("zos-plugin-zip-export"@[11] != "zos-plugin-omnisearch"@[11]);
    assert("zos-plugin-zip-export"@[11] != "zos-plugin-emoji-lang"@[11]);
    assert("zos-plugin-zip-export"@[11] != "zos-plugin-extractous"@[11]);
    assert("zos-plugin-zip-export"@[11] != "zos-plugin-rust-sbert"@[11]);
    assert(entry_index(registry_entries()[61].0) == 61);
    assert forall|k: int| 21 <= k < 62 implies entry_index(
        #[trigger] registry_entries()[k].0,
    ) == k by {
        assert(k == 21 || k == 22 || k == 23 || k == 24 || k == 25 || k == 26 || k == 27 || k == 28 || k == 29 || k == 30 || k == 31 || k == 32 || k == 33 || k == 34 || k == 35 || k == 36 || k == 37 || k == 38 || k == 39 || k == 40 || k == 41 || k == 42 || k == 43 || k == 44 || k == 45 || k == 46 || k == 47 || k == 48 || k == 49 || k == 50 || k == 51 || k == 52 || k == 53 || k == 54 || k == 55 || k == 56 || k == 57 || k == 58 || k == 59 || k == 60 || k == 61);
    }
}

/// Each channel name of positions 62 to 68 maps back to its position.
proof fn lemma_timer_positions()
    ensures
        forall|k: int| 62 <= k < 69 ==> entry_index(#[trigger] registry_entries()[k].0) == k,
{
    reveal_strlit(".timer");
    reveal_strlit("erdfa-publish");
    reveal_strlit("forgejo");
    reveal_strlit("fractran-generator");
    reveal_strlit("git-events-consumer");
    reveal_strlit("jaeger");
    reveal_strlit("jocko-training");
    reveal_strlit("jocko-training.timer");
    reveal_strlit("kagenti-daemon");
    reveal_strlit("kagenti-portal");
    reveal_strlit("kagenti-solfunmeme-roundrobin");
    reveal_strlit("kagenti-solfunmeme-roundrobin.timer");
    reveal_strlit("kagenti-solfunmeme-test");
    reveal_strlit("kagenti-solfunmeme-test.timer");
    reveal_strlit("kagenti-solfunmeme-zkperf");
    reveal_strlit("kagenti-solfunmeme-zkperf.timer");
    reveal_strlit("kant-pastebin");
    reveal_strlit("leech-lattice-24");
    reveal_strlit("moltis");
    reveal_strlit("otp-bbs-bridge");
    reveal_strlit("prometheus");
    reveal_strlit("rabbitmq");
    reveal_strlit("rust-compiler-zkp");
    reveal_strlit("solfunmeme-crawl");
    reveal_strlit("solfunmeme-crawl.timer");
    reveal_strlit("solfunmeme-dioxus");
    reveal_strlit("solfunmeme-mesh-sync");
    reveal_strlit("solfunmeme-mesh-sync.timer");
    reveal_strlit("solfunmeme-prove");
    reveal_strlit("solfunmeme-prove.timer");
    reveal_strlit("solfunmeme-service");
    reveal_strlit("zkperf");
    reveal_strlit("zos-minimal-server");
    reveal_strlit("zos-noc-manager");
    reveal_strlit("zos-plugin-a11y-gui");
    reveal_strlit("zos-plugin-bert");
    reveal_strlit("zos-plugin-bm25");
    reveal_strlit("zos-plugin-charts");
    reveal_strlit("zos-plugin-eliza-rs");
    reveal_strlit("zos-plugin-emoji-lang");
    reveal_strlit("zos-plugin-extractous");
    reveal_strlit("zos-plugin-git");
    reveal_strlit("zos-plugin-github-manager");
    reveal_strlit("zos-plugin-gline-rs");
    reveal_strlit("zos-plugin-harbor");
    reveal_strlit("zos-plugin-json-ld");
    reveal_strlit("zos-plugin-keyword-extraction");
    reveal_strlit("zos-plugin-layered-nlp");
    reveal_strlit("zos-plugin-llms-from-scratch");
    reveal_strlit("zos-plugin-mcp");
    reveal_strlit("zos-plugin-model2vec");
    reveal_strlit("zos-plugin-monster");
    reveal_strlit("zos-plugin-monster-manifold");
    reveal_strlit("zos-plugin-nlprule");
    reveal_strlit("zos-plugin-noc-manager");
    reveal_strlit("zos-plugin-omnisearch");
    reveal_strlit("zos-plugin-ooda-noc");
    reveal_strlit("zos-plugin-orbits");
    reveal_strlit("zos-plugin-plugin-registry");
    reveal_strlit("zos-plugin-podping");
    reveal_strlit("zos-plugin-quickwit");
    reveal_strlit("zos-plugin-rhai");
    reveal_strlit("zos-plugin-rust-parser");
    reveal_strlit("zos-plugin-rust-sbert");
    reveal_strlit("zos-plugin-rust-sentence-transformers");
    reveal_strlit("zos-plugin-s3");
    reveal_strlit("zos-plugin-snm-atlas");
    reveal_strlit("zos-plugin-solana-airdrop");
    reveal_strlit("zos-plugin-steel");
    reveal_strlit("zos-plugin-system-discovery");
    reveal_strlit("zos-plugin-tongrams");
    reveal_strlit("zos-plugin-vaporetto");
    reveal_strlit("zos-plugin-vibrato");
    reveal_strlit("zos-plugin-vtext");
    reveal_strlit("zos-plugin-zip-export");
    assert(registry_entries()[62].0 =~= "kagenti-solfunmeme-test.timer"@);
    assert("kagenti-solfunmeme-test.timer"@[0] != "zos-plugin-keyword-extraction"@[0]);
    assert(entry_index(registry_entries()[62].0) == 62);
    assert(registry_entries()[63].0 =~= "kagenti-solfunmeme-zkperf.timer"@);
    assert(entry_index(registry_entries()[63].0) == 63);
    assert(registry_entries()[64].0 =~= "kagenti-solfunmeme-roundrobin.timer"@);
    assert(entry_index(registry_entries()[64].0) == 64);
    assert(registry_entries()[65].0 =~= "jocko-training.timer"@);
    assert("jocko-training.timer"@[0] != "solfunmeme-mesh-sync"@[0]);
    assert("jocko-training.timer"@[0] != "zos-plugin-snm-atlas"@[0]);
    assert("jocko-training.timer"@[0] != "zos-plugin-model2vec"@[0]);
    assert("jocko-training.timer"@[0] != "zos-plugin-vaporetto"@[0]);
    assert(entry_index(registry_entries()[65].0) == 65);
    assert(registry_entries()[66].0 =~= "solfunmeme-mesh-sync.timer"@);
    assert("solfunmeme-mesh-sync.timer"@[0] != "zos-plugin-plugin-registry"@[0]);
    assert(entry_index(registry_entries()[66].0) == 66);
    assert(registry_entries()[67].0 =~= "solfunmeme-crawl.timer"@);
    assert("solfunmeme-crawl.timer"@[0] != "zos-plugin-rust-parser"@[0]);
    assert("solfunmeme-crawl.timer"@[0] != "zos-plugin-noc-manager"@[0]);
    assert("solfunmeme-crawl.timer"@[0] != "zos-plugin-layered-nlp"@[0]);
    assert(entry_index(registry_entries()[67].0) == 67);
    assert(registry_entries()[68].0 =~= "solfunmeme-prove.timer"@);
    assert("solfunmeme-prove.timer"@[0] != "zos-plugin-rust-parser"@[0]);
    assert("solfunmeme-prove.timer"@[0] != "zos-plugin-noc-manager"@[0]);
    assert("solfunmeme-prove.timer"@[0] != "zos-plugin-layered-nlp"@[0]);
    assert("solfunmeme-prove.timer"@[11] != "solfunmeme-crawl.timer"@[11]);
    assert(entry_index(registry_entries()[68].0) == 68);
    assert forall|k: int| 62 <= k < 69 implies entry_index(
        #[trigger] registry_entries()[k].0,
    ) == k by {
        assert(k == 62 || k == 63 || k == 64 || k == 65 || k == 66 || k == 67 || k == 68);
    }
}

/// No two channels of the registry share a name.
pub proof fn lemma_registry_names_distinct()
    ensures
        forall|i: int, j: int|
            0 <= i < j < registry_entries().len() ==> registry_entries()[i].0
                != registry_entries()[j].0,
{
    lemma_app_positions();
    lemma_agent_positions();
    lemma_service_positions();
    lemma_plugin_positions();
    lemma_timer_positions();
    assert forall|i: int, j: int|
        0 <= i < j < registry_entries().len() implies registry_entries()[i].0
            != registry_entries()[j].0 by {
        assert(entry_index(registry_entries()[i].0) == i);
        assert(entry_index(registry_entries()[j].0) == j);
    }
}

/// Under one secret, no two channels of the registry hash the same bytes,
/// neither for their DA51 address (the name's bytes) nor for their private
/// topic: their addresses and topics can only coincide through a SHA-256
/// collision.
pub proof fn lemma_registry_hash_inputs_distinct(secret: Seq<char>)
    ensures
        forall|i: int, j: int|
            0 <= i < j < registry_entries().len() ==> {
                &&& utf8(#[trigger] registry_entries()[i].0) != utf8(
                    #[trigger] registry_entries()[j].0,
                )
                &&& private_preimage(secret, registry_entries()[i].0) != private_preimage(
                    secret,
                    registry_entries()[j].0,
                )
            },
{
    lemma_registry_names_distinct();
    assert forall|i: int, j: int| 0 <= i < j < registry_entries().len() implies {
        &&& utf8(#[trigger] registry_entries()[i].0) != utf8(#[trigger] registry_entries()[j].0)
        &&& private_preimage(secret, registry_entries()[i].0) != private_preimage(
            secret,
            registry_entries()[j].0,
        )
    } by {
        lemma_utf8_injective(registry_entries()[i].0, registry_entries()[j].0);
        lemma_distinct_channels_distinct_preimages(
            secret,
            registry_entries()[i].0,
            registry_entries()[j].0,
        );
    }
}

} // verus!
