//! The label taxonomy: the primary classifier's raw labels, the labels
//! that are never surfaced, and the secondary classifier's languages.
use vstd::hash_set::StringHashSet;
use vstd::prelude::*;

use crate::error::DetectError;

verus! {

/// The marker that opens every raw label of the primary classifier.
pub open spec fn label_prefix() -> Seq<char> {
    "__label__"@
}

/// Whether `label` opens with the label marker.
pub open spec fn has_label_prefix(label: Seq<char>) -> bool {
    label_prefix().is_prefix_of(label)
}

/// The language tag that a raw label carries: the label without its marker.
pub open spec fn label_tag(label: Seq<char>) -> Seq<char> {
    label.subrange(label_prefix().len() as int, label.len() as int)
}

/// The number of redundant tags.
pub const REDUNDANT_COUNT: usize = 23;

/// The number of languages that the secondary classifier tells apart.
pub const SUPPORTED_COUNT: usize = 74;

/// The tags of the redundant labels: dialect and script variants that are
/// never a final answer.
pub open spec fn redundant_tag(index: int) -> Seq<char> {
    if index == 0 {
        "ton_Latn"@
    } else if index == 1 {
        "oss_Cyrl"@
    } else if index == 2 {
        "che_Cyrl"@
    } else if index == 3 {
        "ady_Cyrl"@
    } else if index == 4 {
        "tah_Latn"@
    } else if index == 5 {
        "diq_Latn"@
    } else if index == 6 {
        "nia_Latn"@
    } else if index == 7 {
        "nav_Latn"@
    } else if index == 8 {
        "abk_Cyrl"@
    } else if index == 9 {
        "bxr_Cyrl"@
    } else if index == 10 {
        "wes_Latn"@
    } else if index == 11 {
        "gom_Deva"@
    } else if index == 12 {
        "udm_Cyrl"@
    } else if index == 13 {
        "roh_Latn"@
    } else if index == 14 {
        "alt_Cyrl"@
    } else if index == 15 {
        "arn_Latn"@
    } else if index == 16 {
        "ewo_Latn"@
    } else if index == 17 {
        "xmf_Geor"@
    } else if index == 18 {
        "pcm_Latn"@
    } else if index == 19 {
        "bis_Latn"@
    } else if index == 20 {
        "krc_Cyrl"@
    } else if index == 21 {
        "chv_Cyrl"@
    } else if index == 22 {
        "kal_Latn"@
    } else {
        Seq::empty()
    }
}

/// Whether `tag` is one of the redundant tags.
pub open spec fn is_redundant_tag(tag: Seq<char>) -> bool {
    exists|i: int| 0 <= i < REDUNDANT_COUNT && #[trigger] redundant_tag(i) == tag
}

/// Whether a raw label is redundant: the marker followed by a redundant tag.
pub open spec fn is_redundant_label_spec(label: Seq<char>) -> bool {
    has_label_prefix(label) && is_redundant_tag(label_tag(label))
}

/// The tag of each language of the secondary classifier, at the position
/// that the classifier gives that language. The order is the classifier's
/// own enumeration and moves only with it.
pub open spec fn supported_tag(index: int) -> Seq<char> {
    if index == 0 {
        "afr_Latn"@
    } else if index == 1 {
        "als_Latn"@
    } else if index == 2 {
        "arb_Latn"@
    } else if index == 3 {
        "hye_Armn"@
    } else if index == 4 {
        "azj_Latn"@
    } else if index == 5 {
        "eus_Latn"@
    } else if index == 6 {
        "bel_Cyrl"@
    } else if index == 7 {
        "ben_Beng"@
    } else if index == 8 {
        "nob_Latn"@
    } else if index == 9 {
        "bos_Latn"@
    } else if index == 10 {
        "bul_Cyrl"@
    } else if index == 11 {
        "cat_Latn"@
    } else if index == 12 {
        "zho_Hans"@
    } else if index == 13 {
        "hrv_Latn"@
    } else if index == 14 {
        "ces_Latn"@
    } else if index == 15 {
        "dan_Latn"@
    } else if index == 16 {
        "nld_Latn"@
    } else if index == 17 {
        "eng_Latn"@
    } else if index == 18 {
        "epo_Latn"@
    } else if index == 19 {
        "est_Latn"@
    } else if index == 20 {
        "fin_Latn"@
    } else if index == 21 {
        "fra_Latn"@
    } else if index == 22 {
        "lug_Latn"@
    } else if index == 23 {
        "kat_Geor"@
    } else if index == 24 {
        "deu_Latn"@
    } else if index == 25 {
        "ell_Grek"@
    } else if index == 26 {
        "guj_Gujr"@
    } else if index == 27 {
        "heb_Hebr"@
    } else if index == 28 {
        "hin_Deva"@
    } else if index == 29 {
        "hun_Latn"@
    } else if index == 30 {
        "isl_Latn"@
    } else if index == 31 {
        "ind_Latn"@
    } else if index == 32 {
        "gle_Latn"@
    } else if index == 33 {
        "ita_Latn"@
    } else if index == 34 {
        "jpn_Jpan"@
    } else if index == 35 {
        "kaz_Cyrl"@
    } else if index == 36 {
        "kor_Hang"@
    } else if index == 37 {
        "lvs_Latn"@
    } else if index == 38 {
        "lit_Latn"@
    } else if index == 39 {
        "mkd_Cyrl"@
    } else if index == 40 {
        "msa_Latn"@
    } else if index == 41 {
        "mri_Latn"@
    } else if index == 42 {
        "mar_Deva"@
    } else if index == 43 {
        "mon_Cyrl"@
    } else if index == 44 {
        "nno_Latn"@
    } else if index == 45 {
        "pes_Arab"@
    } else if index == 46 {
        "pol_Latn"@
    } else if index == 47 {
        "por_Latn"@
    } else if index == 48 {
        "pan_Guru"@
    } else if index == 49 {
        "ron_Latn"@
    } else if index == 50 {
        "rus_Cyrl"@
    } else if index == 51 {
        "srp_Cyrl"@
    } else if index == 52 {
        "sna_Latn"@
    } else if index == 53 {
        "slk_Latn"@
    } else if index == 54 {
        "slv_Latn"@
    } else if index == 55 {
        "som_Latn"@
    } else if index == 56 {
        "sot_Latn"@
    } else if index == 57 {
        "spa_Latn"@
    } else if index == 58 {
        "swh_Latn"@
    } else if index == 59 {
        "swe_Latn"@
    } else if index == 60 {
        "tgl_Latn"@
    } else if index == 61 {
        "tam_Taml"@
    } else if index == 62 {
        "tel_Telu"@
    } else if index == 63 {
        "tha_Thai"@
    } else if index == 64 {
        "tso_Latn"@
    } else if index == 65 {
        "tsn_Latn"@
    } else if index == 66 {
        "tur_Latn"@
    } else if index == 67 {
        "ukr_Cyrl"@
    } else if index == 68 {
        "urd_Arab"@
    } else if index == 69 {
        "vie_Latn"@
    } else if index == 70 {
        "cym_Latn"@
    } else if index == 71 {
        "xho_Latn"@
    } else if index == 72 {
        "yor_Latn"@
    } else if index == 73 {
        "zul_Latn"@
    } else {
        Seq::empty()
    }
}

/// No language of the secondary classifier carries a redundant tag.
pub proof fn lemma_supported_tag_not_redundant(index: int)
    requires
        0 <= index < SUPPORTED_COUNT,
    ensures
        !is_redundant_tag(supported_tag(index)),
{
    // The first three characters, the language code, tell every supported
    // tag from every redundant one.
    reveal_strlit("ton_Latn");
    assert("ton_Latn"@[0] == 't' && "ton_Latn"@[1] == 'o' && "ton_Latn"@[2] == 'n');
    reveal_strlit("oss_Cyrl");
    assert("oss_Cyrl"@[0] == 'o' && "oss_Cyrl"@[1] == 's' && "oss_Cyrl"@[2] == 's');
    reveal_strlit("che_Cyrl");
    assert("che_Cyrl"@[0] == 'c' && "che_Cyrl"@[1] == 'h' && "che_Cyrl"@[2] == 'e');
    reveal_strlit("ady_Cyrl");
    assert("ady_Cyrl"@[0] == 'a' && "ady_Cyrl"@[1] == 'd' && "ady_Cyrl"@[2] == 'y');
    reveal_strlit("tah_Latn");
    assert("tah_Latn"@[0] == 't' && "tah_Latn"@[1] == 'a' && "tah_Latn"@[2] == 'h');
    reveal_strlit("diq_Latn");
    assert("diq_Latn"@[0] == 'd' && "diq_Latn"@[1] == 'i' && "diq_Latn"@[2] == 'q');
    reveal_strlit("nia_Latn");
    assert("nia_Latn"@[0] == 'n' && "nia_Latn"@[1] == 'i' && "nia_Latn"@[2] == 'a');
    reveal_strlit("nav_Latn");
    assert("nav_Latn"@[0] == 'n' && "nav_Latn"@[1] == 'a' && "nav_Latn"@[2] == 'v');
    reveal_strlit("abk_Cyrl");
    assert("abk_Cyrl"@[0] == 'a' && "abk_Cyrl"@[1] == 'b' && "abk_Cyrl"@[2] == 'k');
    reveal_strlit("bxr_Cyrl");
    assert("bxr_Cyrl"@[0] == 'b' && "bxr_Cyrl"@[1] == 'x' && "bxr_Cyrl"@[2] == 'r');
    reveal_strlit("wes_Latn");
    assert("wes_Latn"@[0] == 'w' && "wes_Latn"@[1] == 'e' && "wes_Latn"@[2] == 's');
    reveal_strlit("gom_Deva");
    assert("gom_Deva"@[0] == 'g' && "gom_Deva"@[1] == 'o' && "gom_Deva"@[2] == 'm');
    reveal_strlit("udm_Cyrl");
    assert("udm_Cyrl"@[0] == 'u' && "udm_Cyrl"@[1] == 'd' && "udm_Cyrl"@[2] == 'm');
    reveal_strlit("roh_Latn");
    assert("roh_Latn"@[0] == 'r' && "roh_Latn"@[1] == 'o' && "roh_Latn"@[2] == 'h');
    reveal_strlit("alt_Cyrl");
    assert("alt_Cyrl"@[0] == 'a' && "alt_Cyrl"@[1] == 'l' && "alt_Cyrl"@[2] == 't');
    reveal_strlit("arn_Latn");
    assert("arn_Latn"@[0] == 'a' && "arn_Latn"@[1] == 'r' && "arn_Latn"@[2] == 'n');
    reveal_strlit("ewo_Latn");
    assert("ewo_Latn"@[0] == 'e' && "ewo_Latn"@[1] == 'w' && "ewo_Latn"@[2] == 'o');
    reveal_strlit("xmf_Geor");
    assert("xmf_Geor"@[0] == 'x' && "xmf_Geor"@[1] == 'm' && "xmf_Geor"@[2] == 'f');
    reveal_strlit("pcm_Latn");
    assert("pcm_Latn"@[0] == 'p' && "pcm_Latn"@[1] == 'c' && "pcm_Latn"@[2] == 'm');
    reveal_strlit("bis_Latn");
    assert("bis_Latn"@[0] == 'b' && "bis_Latn"@[1] == 'i' && "bis_Latn"@[2] == 's');
    reveal_strlit("krc_Cyrl");
    assert("krc_Cyrl"@[0] == 'k' && "krc_Cyrl"@[1] == 'r' && "krc_Cyrl"@[2] == 'c');
    reveal_strlit("chv_Cyrl");
    assert("chv_Cyrl"@[0] == 'c' && "chv_Cyrl"@[1] == 'h' && "chv_Cyrl"@[2] == 'v');
    reveal_strlit("kal_Latn");
    assert("kal_Latn"@[0] == 'k' && "kal_Latn"@[1] == 'a' && "kal_Latn"@[2] == 'l');
    reveal_strlit("afr_Latn");
    assert("afr_Latn"@[0] == 'a' && "afr_Latn"@[1] == 'f' && "afr_Latn"@[2] == 'r');
    reveal_strlit("als_Latn");
    assert("als_Latn"@[0] == 'a' && "als_Latn"@[1] == 'l' && "als_Latn"@[2] == 's');
    reveal_strlit("arb_Latn");
    assert("arb_Latn"@[0] == 'a' && "arb_Latn"@[1] == 'r' && "arb_Latn"@[2] == 'b');
    reveal_strlit("hye_Armn");
    assert("hye_Armn"@[0] == 'h' && "hye_Armn"@[1] == 'y' && "hye_Armn"@[2] == 'e');
    reveal_strlit("azj_Latn");
    assert("azj_Latn"@[0] == 'a' && "azj_Latn"@[1] == 'z' && "azj_Latn"@[2] == 'j');
    reveal_strlit("eus_Latn");
    assert("eus_Latn"@[0] == 'e' && "eus_Latn"@[1] == 'u' && "eus_Latn"@[2] == 's');
    reveal_strlit("bel_Cyrl");
    assert("bel_Cyrl"@[0] == 'b' && "bel_Cyrl"@[1] == 'e' && "bel_Cyrl"@[2] == 'l');
    reveal_strlit("ben_Beng");
    assert("ben_Beng"@[0] == 'b' && "ben_Beng"@[1] == 'e' && "ben_Beng"@[2] == 'n');
    reveal_strlit("nob_Latn");
    assert("nob_Latn"@[0] == 'n' && "nob_Latn"@[1] == 'o' && "nob_Latn"@[2] == 'b');
    reveal_strlit("bos_Latn");
    assert("bos_Latn"@[0] == 'b' && "bos_Latn"@[1] == 'o' && "bos_Latn"@[2] == 's');
    reveal_strlit("bul_Cyrl");
    assert("bul_Cyrl"@[0] == 'b' && "bul_Cyrl"@[1] == 'u' && "bul_Cyrl"@[2] == 'l');
    reveal_strlit("cat_Latn");
    assert("cat_Latn"@[0] == 'c' && "cat_Latn"@[1] == 'a' && "cat_Latn"@[2] == 't');
    reveal_strlit("zho_Hans");
    assert("zho_Hans"@[0] == 'z' && "zho_Hans"@[1] == 'h' && "zho_Hans"@[2] == 'o');
    reveal_strlit("hrv_Latn");
    assert("hrv_Latn"@[0] == 'h' && "hrv_Latn"@[1] == 'r' && "hrv_Latn"@[2] == 'v');
    reveal_strlit("ces_Latn");
    assert("ces_Latn"@[0] == 'c' && "ces_Latn"@[1] == 'e' && "ces_Latn"@[2] == 's');
    reveal_strlit("dan_Latn");
    assert("dan_Latn"@[0] == 'd' && "dan_Latn"@[1] == 'a' && "dan_Latn"@[2] == 'n');
    reveal_strlit("nld_Latn");
    assert("nld_Latn"@[0] == 'n' && "nld_Latn"@[1] == 'l' && "nld_Latn"@[2] == 'd');
    reveal_strlit("eng_Latn");
    assert("eng_Latn"@[0] == 'e' && "eng_Latn"@[1] == 'n' && "eng_Latn"@[2] == 'g');
    reveal_strlit("epo_Latn");
    assert("epo_Latn"@[0] == 'e' && "epo_Latn"@[1] == 'p' && "epo_Latn"@[2] == 'o');
    reveal_strlit("est_Latn");
    assert("est_Latn"@[0] == 'e' && "est_Latn"@[1] == 's' && "est_Latn"@[2] == 't');
    reveal_strlit("fin_Latn");
    assert("fin_Latn"@[0] == 'f' && "fin_Latn"@[1] == 'i' && "fin_Latn"@[2] == 'n');
    reveal_strlit("fra_Latn");
    assert("fra_Latn"@[0] == 'f' && "fra_Latn"@[1] == 'r' && "fra_Latn"@[2] == 'a');
    reveal_strlit("lug_Latn");
    assert("lug_Latn"@[0] == 'l' && "lug_Latn"@[1] == 'u' && "lug_Latn"@[2] == 'g');
    reveal_strlit("kat_Geor");
    assert("kat_Geor"@[0] == 'k' && "kat_Geor"@[1] == 'a' && "kat_Geor"@[2] == 't');
    reveal_strlit("deu_Latn");
    assert("deu_Latn"@[0] == 'd' && "deu_Latn"@[1] == 'e' && "deu_Latn"@[2] == 'u');
    reveal_strlit("ell_Grek");
    assert("ell_Grek"@[0] == 'e' && "ell_Grek"@[1] == 'l' && "ell_Grek"@[2] == 'l');
    reveal_strlit("guj_Gujr");
    assert("guj_Gujr"@[0] == 'g' && "guj_Gujr"@[1] == 'u' && "guj_Gujr"@[2] == 'j');
    reveal_strlit("heb_Hebr");
    assert("heb_Hebr"@[0] == 'h' && "heb_Hebr"@[1] == 'e' && "heb_Hebr"@[2] == 'b');
    reveal_strlit("hin_Deva");
    assert("hin_Deva"@[0] == 'h' && "hin_Deva"@[1] == 'i' && "hin_Deva"@[2] == 'n');
    reveal_strlit("hun_Latn");
    assert("hun_Latn"@[0] == 'h' && "hun_Latn"@[1] == 'u' && "hun_Latn"@[2] == 'n');
    reveal_strlit("isl_Latn");
    assert("isl_Latn"@[0] == 'i' && "isl_Latn"@[1] == 's' && "isl_Latn"@[2] == 'l');
    reveal_strlit("ind_Latn");
    assert("ind_Latn"@[0] == 'i' && "ind_Latn"@[1] == 'n' && "ind_Latn"@[2] == 'd');
    reveal_strlit("gle_Latn");
    assert("gle_Latn"@[0] == 'g' && "gle_Latn"@[1] == 'l' && "gle_Latn"@[2] == 'e');
    reveal_strlit("ita_Latn");
    assert("ita_Latn"@[0] == 'i' && "ita_Latn"@[1] == 't' && "ita_Latn"@[2] == 'a');
    reveal_strlit("jpn_Jpan");
    assert("jpn_Jpan"@[0] == 'j' && "jpn_Jpan"@[1] == 'p' && "jpn_Jpan"@[2] == 'n');
    reveal_strlit("kaz_Cyrl");
    assert("kaz_Cyrl"@[0] == 'k' && "kaz_Cyrl"@[1] == 'a' && "kaz_Cyrl"@[2] == 'z');
    reveal_strlit("kor_Hang");
    assert("kor_Hang"@[0] == 'k' && "kor_Hang"@[1] == 'o' && "kor_Hang"@[2] == 'r');
    reveal_strlit("lvs_Latn");
    assert("lvs_Latn"@[0] == 'l' && "lvs_Latn"@[1] == 'v' && "lvs_Latn"@[2] == 's');
    reveal_strlit("lit_Latn");
    assert("lit_Latn"@[0] == 'l' && "lit_Latn"@[1] == 'i' && "lit_Latn"@[2] == 't');
    reveal_strlit("mkd_Cyrl");
    assert("mkd_Cyrl"@[0] == 'm' && "mkd_Cyrl"@[1] == 'k' && "mkd_Cyrl"@[2] == 'd');
    reveal_strlit("msa_Latn");
    assert("msa_Latn"@[0] == 'm' && "msa_Latn"@[1] == 's' && "msa_Latn"@[2] == 'a');
    reveal_strlit("mri_Latn");
    assert("mri_Latn"@[0] == 'm' && "mri_Latn"@[1] == 'r' && "mri_Latn"@[2] == 'i');
    reveal_strlit("mar_Deva");
    assert("mar_Deva"@[0] == 'm' && "mar_Deva"@[1] == 'a' && "mar_Deva"@[2] == 'r');
    reveal_strlit("mon_Cyrl");
    assert("mon_Cyrl"@[0] == 'm' && "mon_Cyrl"@[1] == 'o' && "mon_Cyrl"@[2] == 'n');
    reveal_strlit("nno_Latn");
    assert("nno_Latn"@[0] == 'n' && "nno_Latn"@[1] == 'n' && "nno_Latn"@[2] == 'o');
    reveal_strlit("pes_Arab");
    assert("pes_Arab"@[0] == 'p' && "pes_Arab"@[1] == 'e' && "pes_Arab"@[2] == 's');
    reveal_strlit("pol_Latn");
    assert("pol_Latn"@[0] == 'p' && "pol_Latn"@[1] == 'o' && "pol_Latn"@[2] == 'l');
    reveal_strlit("por_Latn");
    assert("por_Latn"@[0] == 'p' && "por_Latn"@[1] == 'o' && "por_Latn"@[2] == 'r');
    reveal_strlit("pan_Guru");
    assert("pan_Guru"@[0] == 'p' && "pan_Guru"@[1] == 'a' && "pan_Guru"@[2] == 'n');
    reveal_strlit("ron_Latn");
    assert("ron_Latn"@[0] == 'r' && "ron_Latn"@[1] == 'o' && "ron_Latn"@[2] == 'n');
    reveal_strlit("rus_Cyrl");
    assert("rus_Cyrl"@[0] == 'r' && "rus_Cyrl"@[1] == 'u' && "rus_Cyrl"@[2] == 's');
    reveal_strlit("srp_Cyrl");
    assert("srp_Cyrl"@[0] == 's' && "srp_Cyrl"@[1] == 'r' && "srp_Cyrl"@[2] == 'p');
    reveal_strlit("sna_Latn");
    assert("sna_Latn"@[0] == 's' && "sna_Latn"@[1] == 'n' && "sna_Latn"@[2] == 'a');
    reveal_strlit("slk_Latn");
    assert("slk_Latn"@[0] == 's' && "slk_Latn"@[1] == 'l' && "slk_Latn"@[2] == 'k');
    reveal_strlit("slv_Latn");
    assert("slv_Latn"@[0] == 's' && "slv_Latn"@[1] == 'l' && "slv_Latn"@[2] == 'v');
    reveal_strlit("som_Latn");
    assert("som_Latn"@[0] == 's' && "som_Latn"@[1] == 'o' && "som_Latn"@[2] == 'm');
    reveal_strlit("sot_Latn");
    assert("sot_Latn"@[0] == 's' && "sot_Latn"@[1] == 'o' && "sot_Latn"@[2] == 't');
    reveal_strlit("spa_Latn");
    assert("spa_Latn"@[0] == 's' && "spa_Latn"@[1] == 'p' && "spa_Latn"@[2] == 'a');
    reveal_strlit("swh_Latn");
    assert("swh_Latn"@[0] == 's' && "swh_Latn"@[1] == 'w' && "swh_Latn"@[2] == 'h');
    reveal_strlit("swe_Latn");
    assert("swe_Latn"@[0] == 's' && "swe_Latn"@[1] == 'w' && "swe_Latn"@[2] == 'e');
    reveal_strlit("tgl_Latn");
    assert("tgl_Latn"@[0] == 't' && "tgl_Latn"@[1] == 'g' && "tgl_Latn"@[2] == 'l');
    reveal_strlit("tam_Taml");
    assert("tam_Taml"@[0] == 't' && "tam_Taml"@[1] == 'a' && "tam_Taml"@[2] == 'm');
    reveal_strlit("tel_Telu");
    assert("tel_Telu"@[0] == 't' && "tel_Telu"@[1] == 'e' && "tel_Telu"@[2] == 'l');
    reveal_strlit("tha_Thai");
    assert("tha_Thai"@[0] == 't' && "tha_Thai"@[1] == 'h' && "tha_Thai"@[2] == 'a');
    reveal_strlit("tso_Latn");
    assert("tso_Latn"@[0] == 't' && "tso_Latn"@[1] == 's' && "tso_Latn"@[2] == 'o');
    reveal_strlit("tsn_Latn");
    assert("tsn_Latn"@[0] == 't' && "tsn_Latn"@[1] == 's' && "tsn_Latn"@[2] == 'n');
    reveal_strlit("tur_Latn");
    assert("tur_Latn"@[0] == 't' && "tur_Latn"@[1] == 'u' && "tur_Latn"@[2] == 'r');
    reveal_strlit("ukr_Cyrl");
    assert("ukr_Cyrl"@[0] == 'u' && "ukr_Cyrl"@[1] == 'k' && "ukr_Cyrl"@[2] == 'r');
    reveal_strlit("urd_Arab");
    assert("urd_Arab"@[0] == 'u' && "urd_Arab"@[1] == 'r' && "urd_Arab"@[2] == 'd');
    reveal_strlit("vie_Latn");
    assert("vie_Latn"@[0] == 'v' && "vie_Latn"@[1] == 'i' && "vie_Latn"@[2] == 'e');
    reveal_strlit("cym_Latn");
    assert("cym_Latn"@[0] == 'c' && "cym_Latn"@[1] == 'y' && "cym_Latn"@[2] == 'm');
    reveal_strlit("xho_Latn");
    assert("xho_Latn"@[0] == 'x' && "xho_Latn"@[1] == 'h' && "xho_Latn"@[2] == 'o');
    reveal_strlit("yor_Latn");
    assert("yor_Latn"@[0] == 'y' && "yor_Latn"@[1] == 'o' && "yor_Latn"@[2] == 'r');
    reveal_strlit("zul_Latn");
    assert("zul_Latn"@[0] == 'z' && "zul_Latn"@[1] == 'u' && "zul_Latn"@[2] == 'l');
    assert forall|j: int| 0 <= j < REDUNDANT_COUNT implies redundant_tag(j) != supported_tag(index) by {}
}

/// Relies on `str::strip_prefix`: `Some` of the rest of `s` exactly when `s`
/// opens with `prefix`.
#[verifier::external_body]
fn strip_str_prefix<'a>(s: &'a str, prefix: &str) -> (r: Option<&'a str>)
    ensures
        r is Some <==> prefix@.is_prefix_of(s@),
        r is Some ==> r->0@ == s@.subrange(prefix@.len() as int, s@.len() as int),
{
    s.strip_prefix(prefix)
}

/// The label marker.
pub fn label_marker() -> (r: &'static str)
    ensures
        r@ == label_prefix(),
{
    "__label__"
}

/// The redundant tag at `index`.
fn redundant_tag_at(index: usize) -> (r: &'static str)
    requires
        index < REDUNDANT_COUNT,
    ensures
        r@ == redundant_tag(index as int),
{
    match index {
        0 => "ton_Latn",
        1 => "oss_Cyrl",
        2 => "che_Cyrl",
        3 => "ady_Cyrl",
        4 => "tah_Latn",
        5 => "diq_Latn",
        6 => "nia_Latn",
        7 => "nav_Latn",
        8 => "abk_Cyrl",
        9 => "bxr_Cyrl",
        10 => "wes_Latn",
        11 => "gom_Deva",
        12 => "udm_Cyrl",
        13 => "roh_Latn",
        14 => "alt_Cyrl",
        15 => "arn_Latn",
        16 => "ewo_Latn",
        17 => "xmf_Geor",
        18 => "pcm_Latn",
        19 => "bis_Latn",
        20 => "krc_Cyrl",
        21 => "chv_Cyrl",
        _ => "kal_Latn",
    }
}

/// The tag of the secondary classifier's language at `index`, if it has one.
pub fn supported_language(index: usize) -> (r: Option<&'static str>)
    ensures
        r is Some <==> index < SUPPORTED_COUNT,
        r is Some ==> r->0@ == supported_tag(index as int),
{
    match index {
        0 => Some("afr_Latn"),
        1 => Some("als_Latn"),
        2 => Some("arb_Latn"),
        3 => Some("hye_Armn"),
        4 => Some("azj_Latn"),
        5 => Some("eus_Latn"),
        6 => Some("bel_Cyrl"),
        7 => Some("ben_Beng"),
        8 => Some("nob_Latn"),
        9 => Some("bos_Latn"),
        10 => Some("bul_Cyrl"),
        11 => Some("cat_Latn"),
        12 => Some("zho_Hans"),
        13 => Some("hrv_Latn"),
        14 => Some("ces_Latn"),
        15 => Some("dan_Latn"),
        16 => Some("nld_Latn"),
        17 => Some("eng_Latn"),
        18 => Some("epo_Latn"),
        19 => Some("est_Latn"),
        20 => Some("fin_Latn"),
        21 => Some("fra_Latn"),
        22 => Some("lug_Latn"),
        23 => Some("kat_Geor"),
        24 => Some("deu_Latn"),
        25 => Some("ell_Grek"),
        26 => Some("guj_Gujr"),
        27 => Some("heb_Hebr"),
        28 => Some("hin_Deva"),
        29 => Some("hun_Latn"),
        30 => Some("isl_Latn"),
        31 => Some("ind_Latn"),
        32 => Some("gle_Latn"),
        33 => Some("ita_Latn"),
        34 => Some("jpn_Jpan"),
        35 => Some("kaz_Cyrl"),
        36 => Some("kor_Hang"),
        37 => Some("lvs_Latn"),
        38 => Some("lit_Latn"),
        39 => Some("mkd_Cyrl"),
        40 => Some("msa_Latn"),
        41 => Some("mri_Latn"),
        42 => Some("mar_Deva"),
        43 => Some("mon_Cyrl"),
        44 => Some("nno_Latn"),
        45 => Some("pes_Arab"),
        46 => Some("pol_Latn"),
        47 => Some("por_Latn"),
        48 => Some("pan_Guru"),
        49 => Some("ron_Latn"),
        50 => Some("rus_Cyrl"),
        51 => Some("srp_Cyrl"),
        52 => Some("sna_Latn"),
        53 => Some("slk_Latn"),
        54 => Some("slv_Latn"),
        55 => Some("som_Latn"),
        56 => Some("sot_Latn"),
        57 => Some("spa_Latn"),
        58 => Some("swh_Latn"),
        59 => Some("swe_Latn"),
        60 => Some("tgl_Latn"),
        61 => Some("tam_Taml"),
        62 => Some("tel_Telu"),
        63 => Some("tha_Thai"),
        64 => Some("tso_Latn"),
        65 => Some("tsn_Latn"),
        66 => Some("tur_Latn"),
        67 => Some("ukr_Cyrl"),
        68 => Some("urd_Arab"),
        69 => Some("vie_Latn"),
        70 => Some("cym_Latn"),
        71 => Some("xho_Latn"),
        72 => Some("yor_Latn"),
        73 => Some("zul_Latn"),
        _ => None,
    }
}

/// The redundant tags, as a set.
pub open spec fn redundant_tags() -> Set<Seq<char>> {
    Set::new(|tag: Seq<char>| is_redundant_tag(tag))
}

/// The label taxonomy, built once: the redundant tags in a hash set, so that
/// telling a redundant label is one lookup.
pub struct Taxonomy {
    redundant: StringHashSet,
}

impl Taxonomy {
    #[verifier::type_invariant]
    closed spec fn inv(&self) -> bool {
        self.redundant@ == redundant_tags()
    }

    /// The taxonomy, with its set of redundant tags filled.
    pub fn new() -> (r: Taxonomy) {
        let mut redundant = StringHashSet::new();
        let mut i: usize = 0;
        while i < REDUNDANT_COUNT
            invariant
                i <= REDUNDANT_COUNT,
                redundant@ == Set::new(|tag: Seq<char>| exists|j: int| 0 <= j < i && #[trigger] redundant_tag(j) == tag),
            decreases REDUNDANT_COUNT - i,
        {
            let tag = redundant_tag_at(i).to_owned();
            redundant.insert(tag);
            assert(redundant@ =~= Set::new(|t: Seq<char>| exists|j: int| 0 <= j < i + 1 && #[trigger] redundant_tag(j) == t)) by {
                assert forall|t: Seq<char>| (exists|j: int| 0 <= j < i + 1 && #[trigger] redundant_tag(j) == t) implies redundant@.contains(t) by {
                    let j = choose|j: int| 0 <= j < i + 1 && #[trigger] redundant_tag(j) == t;
                    if j < i {
                        assert(exists|k: int| 0 <= k < i && #[trigger] redundant_tag(k) == t);
                    }
                }
            }
            i = i + 1;
        }
        assert(redundant@ =~= redundant_tags());
        Taxonomy { redundant }
    }

    /// Whether `tag` is one of the redundant tags.
    pub fn is_redundant_tag(&self, tag: &str) -> (r: bool)
        ensures
            r == is_redundant_tag(tag@),
    {
        proof {
            use_type_invariant(self);
        }
        self.redundant.contains(tag)
    }

    /// Whether a raw label of the primary classifier is redundant.
    pub fn is_redundant_label(&self, label: &str) -> (r: bool)
        ensures
            r == is_redundant_label_spec(label@),
    {
        match strip_str_prefix(label, label_marker()) {
            Some(tag) => self.is_redundant_tag(tag),
            None => false,
        }
    }
}

/// The language tag that a raw label names: the label without its marker,
/// or `UnknownLabel` where the marker is missing.
pub fn normalize_label(label: &str) -> (r: Result<String, DetectError>)
    ensures
        r is Ok <==> has_label_prefix(label@),
        r matches Ok(tag) ==> tag@ == label_tag(label@),
        r matches Err(e) ==> e == DetectError::UnknownLabel,
{
    match strip_str_prefix(label, label_marker()) {
        Some(tag) => Ok(tag.to_owned()),
        None => Err(DetectError::UnknownLabel),
    }
}

} // verus!
