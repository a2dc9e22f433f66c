//! The organ's stops: a closed set of named control points, each with a
//! stable one-byte identifier and a display name.
//!
//! Identifiers run from 0 to 124; identifier 2 is not assigned to any stop.

use vstd::prelude::*;

verus! {

/// One past the largest stop identifier.
pub const TOTAL_STOPS: u8 = 125;

/// A stop of the organ.
#[derive(Debug, Clone, Copy, PartialEq, Eq, Hash, Structural)]
pub enum OrganStop {
    PedalSwellToPedal,
    PedalSoloToPedal,
    SoloContraViola16,
    SoloVioleDOrchestre8,
    SoloVioleCeleste8,
    SoloVioleSourdine8,
    SoloVioleOctaviante4,
    SoloCornetDeViolesIII,
    SoloTuba8,
    SoloTubaClarion4,
    SoloSpareAStopLine,
    SoloSpareBStopLine,
    SoloTremulant,
    SwellTremulant,
    ChoirTremulant,
    ChoirSubOctave,
    ChoirUnisonOff,
    ChoirOctave,
    SoloHarmonicFlute8,
    SoloConcertFlute4,
    SoloHarmonicPiccolo2,
    SoloOrchestralOboe8,
    SoloCorAnglais8,
    SoloFrenchHorn8,
    SoloOrchestralTrumpet8,
    SwellSoloToSwell,
    SoloSubOctave,
    SoloUnisonOff,
    SoloOctave,
    SwellQuintaten16,
    SwellOpenDiapason8,
    SwellViolinDiapason8,
    SwellLieblichGedackt8,
    SwellEchoGamba8,
    SwellVoixCelestes8,
    SwellPrincipal4,
    SwellLieblichFlute4,
    SwellTwelfth2_2_3,
    SwellFifteenth2,
    SwellMixtureV,
    SwellContraOboe16,
    SwellOboe8,
    SwellDoubleTrumpet16,
    SwellTrumpet8,
    SwellClarion4,
    SwellSpareAStopLine,
    SwellSpareBStopLine,
    GreatSoloToGreat,
    GreatSwellToGreat,
    GreatChoirToGreat,
    GreatDoubleGeigen16,
    GreatOpenDiapasonI8,
    GreatOpenDiapasonII8,
    GreatOpenDiapasonIII8,
    GreatGeigen8,
    GreatHohlFlute8,
    GreatQuint5_1_3,
    GreatOctave4,
    GreatPrincipal4,
    GreatWaldFlute4,
    GreatOctaveQuint2_2_3,
    GreatSuperOctave2,
    GreatMixtureIII,
    GreatMixtureV,
    GreatSpareAStopLine,
    GreatSpareBStopLine,
    GreatContraTromba16,
    GreatTromba8,
    GreatOctaveTromba4,
    SwellSubOctave,
    SwellUnisonOff,
    SwellOctave,
    ChoirSoloToChoir,
    ChoirSwellToChoir,
    ChoirOpenDiapason8,
    ChoirStoppedDiapason8,
    ChoirPrincipal4,
    ChoirStoppedFlute4,
    ChoirNazard2_2_3,
    ChoirSuperOctave2,
    ChoirTierce1_3_5,
    ChoirLarigot1_1_3,
    ChoirTwentySecond1,
    ChoirMixtureIII,
    ChoirSpareUnenclosedStopLine,
    ChoirDoubleDulciana16,
    ChoirClaribelFlute8,
    ChoirSalicional8,
    ChoirVoxAngelica8,
    ChoirDulciana8,
    ChoirDulcet4,
    ChoirClarinet8,
    ChoirCornopean8,
    ChoirSpareEnclosedStopLine,
    ChoirContraTromba16,
    ChoirTromba8,
    ChoirOctaveTromba4,
    ChoirTuba8,
    PedalGreatToPedal,
    PedalChoirToPedal,
    PedalDoubleOpenWood32,
    PedalOpenMetal16,
    PedalOpenWoodI16,
    PedalOpenWoodII16,
    PedalViolone16,
    PedalBourdon16,
    PedalQuintaten16,
    PedalViola16,
    PedalDulciana16,
    PedalOctaveMetal8,
    PedalPrincipal8,
    PedalOctaveWood8,
    PedalFlute8,
    PedalOctaveQuint5_1_3,
    PedalSuperOctave4,
    PedalFifteenth4,
    PedalOctaveFlute4,
    PedalMixtureIV,
    PedalDoubleOphicleide32,
    PedalOphicleide16,
    PedalTrombone16,
    PedalFagotto16,
    PedalPosaune8,
    PedalOctavePosaune4,
}

/// The identifier of a stop.
pub open spec fn stop_id(s: OrganStop) -> u8 {
    match s {
        OrganStop::PedalSwellToPedal => 0,
        OrganStop::PedalSoloToPedal => 1,
        OrganStop::SoloContraViola16 => 3,
        OrganStop::SoloVioleDOrchestre8 => 4,
        OrganStop::SoloVioleCeleste8 => 5,
        OrganStop::SoloVioleSourdine8 => 6,
        OrganStop::SoloVioleOctaviante4 => 7,
        OrganStop::SoloCornetDeViolesIII => 8,
        OrganStop::SoloTuba8 => 9,
        OrganStop::SoloTubaClarion4 => 10,
        OrganStop::SoloSpareAStopLine => 11,
        OrganStop::SoloSpareBStopLine => 12,
        OrganStop::SoloTremulant => 13,
        OrganStop::SwellTremulant => 14,
        OrganStop::ChoirTremulant => 15,
        OrganStop::ChoirSubOctave => 16,
        OrganStop::ChoirUnisonOff => 17,
        OrganStop::ChoirOctave => 18,
        OrganStop::SoloHarmonicFlute8 => 19,
        OrganStop::SoloConcertFlute4 => 20,
        OrganStop::SoloHarmonicPiccolo2 => 21,
        OrganStop::SoloOrchestralOboe8 => 22,
        OrganStop::SoloCorAnglais8 => 23,
        OrganStop::SoloFrenchHorn8 => 24,
        OrganStop::SoloOrchestralTrumpet8 => 25,
        OrganStop::SwellSoloToSwell => 26,
        OrganStop::SoloSubOctave => 27,
        OrganStop::SoloUnisonOff => 28,
        OrganStop::SoloOctave => 29,
        OrganStop::SwellQuintaten16 => 30,
        OrganStop::SwellOpenDiapason8 => 31,
        OrganStop::SwellViolinDiapason8 => 32,
        OrganStop::SwellLieblichGedackt8 => 33,
        OrganStop::SwellEchoGamba8 => 34,
        OrganStop::SwellVoixCelestes8 => 35,
        OrganStop::SwellPrincipal4 => 36,
        OrganStop::SwellLieblichFlute4 => 37,
        OrganStop::SwellTwelfth2_2_3 => 38,
        OrganStop::SwellFifteenth2 => 39,
        OrganStop::SwellMixtureV => 40,
        OrganStop::SwellContraOboe16 => 41,
        OrganStop::SwellOboe8 => 42,
        OrganStop::SwellDoubleTrumpet16 => 43,
        OrganStop::SwellTrumpet8 => 44,
        OrganStop::SwellClarion4 => 45,
        OrganStop::SwellSpareAStopLine => 46,
        OrganStop::SwellSpareBStopLine => 47,
        OrganStop::GreatSoloToGreat => 48,
        OrganStop::GreatSwellToGreat => 49,
        OrganStop::GreatChoirToGreat => 50,
        OrganStop::GreatDoubleGeigen16 => 51,
        OrganStop::GreatOpenDiapasonI8 => 52,
        OrganStop::GreatOpenDiapasonII8 => 53,
        OrganStop::GreatOpenDiapasonIII8 => 54,
        OrganStop::GreatGeigen8 => 55,
        OrganStop::GreatHohlFlute8 => 56,
        OrganStop::GreatQuint5_1_3 => 57,
        OrganStop::GreatOctave4 => 58,
        OrganStop::GreatPrincipal4 => 59,
        OrganStop::GreatWaldFlute4 => 60,
        OrganStop::GreatOctaveQuint2_2_3 => 61,
        OrganStop::GreatSuperOctave2 => 62,
        OrganStop::GreatMixtureIII => 63,
        OrganStop::GreatMixtureV => 64,
        OrganStop::GreatSpareAStopLine => 65,
        OrganStop::GreatSpareBStopLine => 66,
        OrganStop::GreatContraTromba16 => 67,
        OrganStop::GreatTromba8 => 68,
        OrganStop::GreatOctaveTromba4 => 69,
        OrganStop::SwellSubOctave => 70,
        OrganStop::SwellUnisonOff => 71,
        OrganStop::SwellOctave => 72,
        OrganStop::ChoirSoloToChoir => 73,
        OrganStop::ChoirSwellToChoir => 74,
        OrganStop::ChoirOpenDiapason8 => 75,
        OrganStop::ChoirStoppedDiapason8 => 76,
        OrganStop::ChoirPrincipal4 => 77,
        OrganStop::ChoirStoppedFlute4 => 78,
        OrganStop::ChoirNazard2_2_3 => 79,
        OrganStop::ChoirSuperOctave2 => 80,
        OrganStop::ChoirTierce1_3_5 => 81,
        OrganStop::ChoirLarigot1_1_3 => 82,
        OrganStop::ChoirTwentySecond1 => 83,
        OrganStop::ChoirMixtureIII => 84,
        OrganStop::ChoirSpareUnenclosedStopLine => 85,
        OrganStop::ChoirDoubleDulciana16 => 86,
        OrganStop::ChoirClaribelFlute8 => 87,
        OrganStop::ChoirSalicional8 => 88,
        OrganStop::ChoirVoxAngelica8 => 89,
        OrganStop::ChoirDulciana8 => 90,
        OrganStop::ChoirDulcet4 => 91,
        OrganStop::ChoirClarinet8 => 92,
        OrganStop::ChoirCornopean8 => 93,
        OrganStop::ChoirSpareEnclosedStopLine => 94,
        OrganStop::ChoirContraTromba16 => 95,
        OrganStop::ChoirTromba8 => 96,
        OrganStop::ChoirOctaveTromba4 => 97,
        OrganStop::ChoirTuba8 => 98,
        OrganStop::PedalGreatToPedal => 99,
        OrganStop::PedalChoirToPedal => 100,
        OrganStop::PedalDoubleOpenWood32 => 101,
        OrganStop::PedalOpenMetal16 => 102,
        OrganStop::PedalOpenWoodI16 => 103,
        OrganStop::PedalOpenWoodII16 => 104,
        OrganStop::PedalViolone16 => 105,
        OrganStop::PedalBourdon16 => 106,
        OrganStop::PedalQuintaten16 => 107,
        OrganStop::PedalViola16 => 108,
        OrganStop::PedalDulciana16 => 109,
        OrganStop::PedalOctaveMetal8 => 110,
        OrganStop::PedalPrincipal8 => 111,
        OrganStop::PedalOctaveWood8 => 112,
        OrganStop::PedalFlute8 => 113,
        OrganStop::PedalOctaveQuint5_1_3 => 114,
        OrganStop::PedalSuperOctave4 => 115,
        OrganStop::PedalFifteenth4 => 116,
        OrganStop::PedalOctaveFlute4 => 117,
        OrganStop::PedalMixtureIV => 118,
        OrganStop::PedalDoubleOphicleide32 => 119,
        OrganStop::PedalOphicleide16 => 120,
        OrganStop::PedalTrombone16 => 121,
        OrganStop::PedalFagotto16 => 122,
        OrganStop::PedalPosaune8 => 123,
        OrganStop::PedalOctavePosaune4 => 124,
    }
}

/// The stop that carries identifier `n`, if any.
pub open spec fn stop_from_id(n: u8) -> Option<OrganStop> {
    match n {
        0 => Some(OrganStop::PedalSwellToPedal),
        1 => Some(OrganStop::PedalSoloToPedal),
        3 => Some(OrganStop::SoloContraViola16),
        4 => Some(OrganStop::SoloVioleDOrchestre8),
        5 => Some(OrganStop::SoloVioleCeleste8),
        6 => Some(OrganStop::SoloVioleSourdine8),
        7 => Some(OrganStop::SoloVioleOctaviante4),
        8 => Some(OrganStop::SoloCornetDeViolesIII),
        9 => Some(OrganStop::SoloTuba8),
        10 => Some(OrganStop::SoloTubaClarion4),
        11 => Some(OrganStop::SoloSpareAStopLine),
        12 => Some(OrganStop::SoloSpareBStopLine),
        13 => Some(OrganStop::SoloTremulant),
        14 => Some(OrganStop::SwellTremulant),
        15 => Some(OrganStop::ChoirTremulant),
        16 => Some(OrganStop::ChoirSubOctave),
        17 => Some(OrganStop::ChoirUnisonOff),
        18 => Some(OrganStop::ChoirOctave),
        19 => Some(OrganStop::SoloHarmonicFlute8),
        20 => Some(OrganStop::SoloConcertFlute4),
        21 => Some(OrganStop::SoloHarmonicPiccolo2),
        22 => Some(OrganStop::SoloOrchestralOboe8),
        23 => Some(OrganStop::SoloCorAnglais8),
        24 => Some(OrganStop::SoloFrenchHorn8),
        25 => Some(OrganStop::SoloOrchestralTrumpet8),
        26 => Some(OrganStop::SwellSoloToSwell),
        27 => Some(OrganStop::SoloSubOctave),
        28 => Some(OrganStop::SoloUnisonOff),
        29 => Some(OrganStop::SoloOctave),
        30 => Some(OrganStop::SwellQuintaten16),
        31 => Some(OrganStop::SwellOpenDiapason8),
        32 => Some(OrganStop::SwellViolinDiapason8),
        33 => Some(OrganStop::SwellLieblichGedackt8),
        34 => Some(OrganStop::SwellEchoGamba8),
        35 => Some(OrganStop::SwellVoixCelestes8),
        36 => Some(OrganStop::SwellPrincipal4),
        37 => Some(OrganStop::SwellLieblichFlute4),
        38 => Some(OrganStop::SwellTwelfth2_2_3),
        39 => Some(OrganStop::SwellFifteenth2),
        40 => Some(OrganStop::SwellMixtureV),
        41 => Some(OrganStop::SwellContraOboe16),
        42 => Some(OrganStop::SwellOboe8),
        43 => Some(OrganStop::SwellDoubleTrumpet16),
        44 => Some(OrganStop::SwellTrumpet8),
        45 => Some(OrganStop::SwellClarion4),
        46 => Some(OrganStop::SwellSpareAStopLine),
        47 => Some(OrganStop::SwellSpareBStopLine),
        48 => Some(OrganStop::GreatSoloToGreat),
        49 => Some(OrganStop::GreatSwellToGreat),
        50 => Some(OrganStop::GreatChoirToGreat),
        51 => Some(OrganStop::GreatDoubleGeigen16),
        52 => Some(OrganStop::GreatOpenDiapasonI8),
        53 => Some(OrganStop::GreatOpenDiapasonII8),
        54 => Some(OrganStop::GreatOpenDiapasonIII8),
        55 => Some(OrganStop::GreatGeigen8),
        56 => Some(OrganStop::GreatHohlFlute8),
        57 => Some(OrganStop::GreatQuint5_1_3),
        58 => Some(OrganStop::GreatOctave4),
        59 => Some(OrganStop::GreatPrincipal4),
        60 => Some(OrganStop::GreatWaldFlute4),
        61 => Some(OrganStop::GreatOctaveQuint2_2_3),
        62 => Some(OrganStop::GreatSuperOctave2),
        63 => Some(OrganStop::GreatMixtureIII),
        64 => Some(OrganStop::GreatMixtureV),
        65 => Some(OrganStop::GreatSpareAStopLine),
        66 => Some(OrganStop::GreatSpareBStopLine),
        67 => Some(OrganStop::GreatContraTromba16),
        68 => Some(OrganStop::GreatTromba8),
        69 => Some(OrganStop::GreatOctaveTromba4),
        70 => Some(OrganStop::SwellSubOctave),
        71 => Some(OrganStop::SwellUnisonOff),
        72 => Some(OrganStop::SwellOctave),
        73 => Some(OrganStop::ChoirSoloToChoir),
        74 => Some(OrganStop::ChoirSwellToChoir),
        75 => Some(OrganStop::ChoirOpenDiapason8),
        76 => Some(OrganStop::ChoirStoppedDiapason8),
        77 => Some(OrganStop::ChoirPrincipal4),
        78 => Some(OrganStop::ChoirStoppedFlute4),
        79 => Some(OrganStop::ChoirNazard2_2_3),
        80 => Some(OrganStop::ChoirSuperOctave2),
        81 => Some(OrganStop::ChoirTierce1_3_5),
        82 => Some(OrganStop::ChoirLarigot1_1_3),
        83 => Some(OrganStop::ChoirTwentySecond1),
        84 => Some(OrganStop::ChoirMixtureIII),
        85 => Some(OrganStop::ChoirSpareUnenclosedStopLine),
        86 => Some(OrganStop::ChoirDoubleDulciana16),
        87 => Some(OrganStop::ChoirClaribelFlute8),
        88 => Some(OrganStop::ChoirSalicional8),
        89 => Some(OrganStop::ChoirVoxAngelica8),
        90 => Some(OrganStop::ChoirDulciana8),
        91 => Some(OrganStop::ChoirDulcet4),
        92 => Some(OrganStop::ChoirClarinet8),
        93 => Some(OrganStop::ChoirCornopean8),
        94 => Some(OrganStop::ChoirSpareEnclosedStopLine),
        95 => Some(OrganStop::ChoirContraTromba16),
        96 => Some(OrganStop::ChoirTromba8),
        97 => Some(OrganStop::ChoirOctaveTromba4),
        98 => Some(OrganStop::ChoirTuba8),
        99 => Some(OrganStop::PedalGreatToPedal),
        100 => Some(OrganStop::PedalChoirToPedal),
        101 => Some(OrganStop::PedalDoubleOpenWood32),
        102 => Some(OrganStop::PedalOpenMetal16),
        103 => Some(OrganStop::PedalOpenWoodI16),
        104 => Some(OrganStop::PedalOpenWoodII16),
        105 => Some(OrganStop::PedalViolone16),
        106 => Some(OrganStop::PedalBourdon16),
        107 => Some(OrganStop::PedalQuintaten16),
        108 => Some(OrganStop::PedalViola16),
        109 => Some(OrganStop::PedalDulciana16),
        110 => Some(OrganStop::PedalOctaveMetal8),
        111 => Some(OrganStop::PedalPrincipal8),
        112 => Some(OrganStop::PedalOctaveWood8),
        113 => Some(OrganStop::PedalFlute8),
        114 => Some(OrganStop::PedalOctaveQuint5_1_3),
        115 => Some(OrganStop::PedalSuperOctave4),
        116 => Some(OrganStop::PedalFifteenth4),
        117 => Some(OrganStop::PedalOctaveFlute4),
        118 => Some(OrganStop::PedalMixtureIV),
        119 => Some(OrganStop::PedalDoubleOphicleide32),
        120 => Some(OrganStop::PedalOphicleide16),
        121 => Some(OrganStop::PedalTrombone16),
        122 => Some(OrganStop::PedalFagotto16),
        123 => Some(OrganStop::PedalPosaune8),
        124 => Some(OrganStop::PedalOctavePosaune4),
        _ => None,
    }
}

/// Whether some stop carries identifier `n`.
pub open spec fn is_stop_id(n: u8) -> bool {
    n < TOTAL_STOPS && n != 2
}

/// The name of a stop as it is engraved on the console.
pub open spec fn stop_name(s: OrganStop) -> Seq<char> {
    match s {
        OrganStop::PedalSwellToPedal => "Pedal Swell to Pedal"@,
        OrganStop::PedalSoloToPedal => "Pedal Solo to Pedal"@,
        OrganStop::SoloContraViola16 => "Solo Contra Viola 16"@,
        OrganStop::SoloVioleDOrchestre8 => "Solo Viole d'Orchestre 8"@,
        OrganStop::SoloVioleCeleste8 => "Solo Viole Celeste 8"@,
        OrganStop::SoloVioleSourdine8 => "Solo Viole Sourdine 8"@,
        OrganStop::SoloVioleOctaviante4 => "Solo Viole Octaviante 4"@,
        OrganStop::SoloCornetDeViolesIII => "Solo Cornet de Violes III"@,
        OrganStop::SoloTuba8 => "Solo Tuba 8"@,
        OrganStop::SoloTubaClarion4 => "Solo Tuba Clarion 4"@,
        OrganStop::SoloSpareAStopLine => "Solo Spare A Stop Line"@,
        OrganStop::SoloSpareBStopLine => "Solo Spare B Stop Line"@,
        OrganStop::SoloTremulant => "Solo Tremulant"@,
        OrganStop::SwellTremulant => "Swell Tremulant"@,
        OrganStop::ChoirTremulant => "Choir Tremulant"@,
        OrganStop::ChoirSubOctave => "Choir Sub Octave"@,
        OrganStop::ChoirUnisonOff => "Choir Unison Off"@,
        OrganStop::ChoirOctave => "Choir Octave"@,
        OrganStop::SoloHarmonicFlute8 => "Solo Harmonic Flute 8"@,
        OrganStop::SoloConcertFlute4 => "Solo Concert Flute 4"@,
        OrganStop::SoloHarmonicPiccolo2 => "Solo Harmonic Piccolo 2"@,
        OrganStop::SoloOrchestralOboe8 => "Solo Orchestral Oboe 8"@,
        OrganStop::SoloCorAnglais8 => "Solo Cor Anglais 8"@,
        OrganStop::SoloFrenchHorn8 => "Solo French Horn 8"@,
        OrganStop::SoloOrchestralTrumpet8 => "Solo Orchestral Trumpet 8"@,
        OrganStop::SwellSoloToSwell => "Swell Solo to Swell"@,
        OrganStop::SoloSubOctave => "Solo Sub Octave"@,
        OrganStop::SoloUnisonOff => "Solo Unison Off"@,
        OrganStop::SoloOctave => "Solo Octave"@,
        OrganStop::SwellQuintaten16 => "Swell Quintaten 16"@,
        OrganStop::SwellOpenDiapason8 => "Swell Open Diapason 8"@,
        OrganStop::SwellViolinDiapason8 => "Swell Violin Diapason 8"@,
        OrganStop::SwellLieblichGedackt8 => "Swell Lieblich Gedackt 8"@,
        OrganStop::SwellEchoGamba8 => "Swell Echo Gamba 8"@,
        OrganStop::SwellVoixCelestes8 => "Swell Voix Celestes 8"@,
        OrganStop::SwellPrincipal4 => "Swell Principal 4"@,
        OrganStop::SwellLieblichFlute4 => "Swell Lieblich Flute 4"@,
        OrganStop::SwellTwelfth2_2_3 => "Swell Twelfth 2 2/3"@,
        OrganStop::SwellFifteenth2 => "Swell Fifteenth 2"@,
        OrganStop::SwellMixtureV => "Swell Mixture V"@,
        OrganStop::SwellContraOboe16 => "Swell Contra Oboe 16"@,
        OrganStop::SwellOboe8 => "Swell Oboe 8"@,
        OrganStop::SwellDoubleTrumpet16 => "Swell Double Trumpet 16"@,
        OrganStop::SwellTrumpet8 => "Swell Trumpet 8"@,
        OrganStop::SwellClarion4 => "Swell Clarion 4"@,
        OrganStop::SwellSpareAStopLine => "Swell Spare A Stop Line"@,
        OrganStop::SwellSpareBStopLine => "Swell Spare B Stop Line"@,
        OrganStop::GreatSoloToGreat => "Great Solo to Great"@,
        OrganStop::GreatSwellToGreat => "Great Swell to Great"@,
        OrganStop::GreatChoirToGreat => "Great Choir to Great"@,
        OrganStop::GreatDoubleGeigen16 => "Great Double Geigen 16"@,
        OrganStop::GreatOpenDiapasonI8 => "Great Open Diapason I 8"@,
        OrganStop::GreatOpenDiapasonII8 => "Great Open Diapason II 8"@,
        OrganStop::GreatOpenDiapasonIII8 => "Great Open Diapason III 8"@,
        OrganStop::GreatGeigen8 => "Great Geigen 8"@,
        OrganStop::GreatHohlFlute8 => "Great Hohl Flute 8"@,
        OrganStop::GreatQuint5_1_3 => "Great Quint 5 1/3"@,
        OrganStop::GreatOctave4 => "Great Octave 4"@,
        OrganStop::GreatPrincipal4 => "Great Principal 4"@,
        OrganStop::GreatWaldFlute4 => "Great Wald Flute 4"@,
        OrganStop::GreatOctaveQuint2_2_3 => "Great Octave Quint 2 2/3"@,
        OrganStop::GreatSuperOctave2 => "Great Super Octave 2"@,
        OrganStop::GreatMixtureIII => "Great Mixture III"@,
        OrganStop::GreatMixtureV => "Great Mixture V"@,
        OrganStop::GreatSpareAStopLine => "Great Spare A Stop Line"@,
        OrganStop::GreatSpareBStopLine => "Great Spare B Stop Line"@,
        OrganStop::GreatContraTromba16 => "Great Contra Tromba 16"@,
        OrganStop::GreatTromba8 => "Great Tromba 8"@,
        OrganStop::GreatOctaveTromba4 => "Great Octave Tromba 4"@,
        OrganStop::SwellSubOctave => "Swell Sub Octave"@,
        OrganStop::SwellUnisonOff => "Swell Unison Off"@,
        OrganStop::SwellOctave => "Swell Octave"@,
        OrganStop::ChoirSoloToChoir => "Choir Solo to Choir"@,
        OrganStop::ChoirSwellToChoir => "Choir Swell to Choir"@,
        OrganStop::ChoirOpenDiapason8 => "Choir Open Diapason 8"@,
        OrganStop::ChoirStoppedDiapason8 => "Choir Stopped Diapason 8"@,
        OrganStop::ChoirPrincipal4 => "Choir Principal 4"@,
        OrganStop::ChoirStoppedFlute4 => "Choir Stopped Flute 4"@,
        OrganStop::ChoirNazard2_2_3 => "Choir Nazard 2 2/3"@,
        OrganStop::ChoirSuperOctave2 => "Choir Super Octave 2"@,
        OrganStop::ChoirTierce1_3_5 => "Choir Tierce 1 3/5"@,
        OrganStop::ChoirLarigot1_1_3 => "Choir Larigot 1 1/3"@,
        OrganStop::ChoirTwentySecond1 => "Choir Twenty-Second 1"@,
        OrganStop::ChoirMixtureIII => "Choir Mixture III"@,
        OrganStop::ChoirSpareUnenclosedStopLine => "Choir Spare Unenclosed Stop Line"@,
        OrganStop::ChoirDoubleDulciana16 => "Choir Double Dulciana 16"@,
        OrganStop::ChoirClaribelFlute8 => "Choir Claribel Flute 8"@,
        OrganStop::ChoirSalicional8 => "Choir Salicional 8"@,
        OrganStop::ChoirVoxAngelica8 => "Choir Vox Angelica 8"@,
        OrganStop::ChoirDulciana8 => "Choir Dulciana 8"@,
        OrganStop::ChoirDulcet4 => "Choir Dulcet 4"@,
        OrganStop::ChoirClarinet8 => "Choir Clarinet 8"@,
        OrganStop::ChoirCornopean8 => "Choir Cornopean 8"@,
        OrganStop::ChoirSpareEnclosedStopLine => "Choir Spare Enclosed Stop Line"@,
        OrganStop::ChoirContraTromba16 => "Choir Contra Tromba 16"@,
        OrganStop::ChoirTromba8 => "Choir Tromba 8"@,
        OrganStop::ChoirOctaveTromba4 => "Choir Octave Tromba 4"@,
        OrganStop::ChoirTuba8 => "Choir Tuba 8"@,
        OrganStop::PedalGreatToPedal => "Pedal Great to Pedal"@,
        OrganStop::PedalChoirToPedal => "Pedal Choir to Pedal"@,
        OrganStop::PedalDoubleOpenWood32 => "Pedal Double Open Wood 32"@,
        OrganStop::PedalOpenMetal16 => "Pedal Open Metal 16"@,
        OrganStop::PedalOpenWoodI16 => "Pedal Open Wood I 16"@,
        OrganStop::PedalOpenWoodII16 => "Pedal Open Wood II 16"@,
        OrganStop::PedalViolone16 => "Pedal Violone 16"@,
        OrganStop::PedalBourdon16 => "Pedal Bourdon 16"@,
        OrganStop::PedalQuintaten16 => "Pedal Quintaten 16"@,
        OrganStop::PedalViola16 => "Pedal Viola 16"@,
        OrganStop::PedalDulciana16 => "Pedal Dulciana 16"@,
        OrganStop::PedalOctaveMetal8 => "Pedal Octave Metal 8"@,
        OrganStop::PedalPrincipal8 => "Pedal Principal 8"@,
        OrganStop::PedalOctaveWood8 => "Pedal Octave Wood 8"@,
        OrganStop::PedalFlute8 => "Pedal Flute 8"@,
        OrganStop::PedalOctaveQuint5_1_3 => "Pedal Octave Quint 5 1/3"@,
        OrganStop::PedalSuperOctave4 => "Pedal Super Octave 4"@,
        OrganStop::PedalFifteenth4 => "Pedal Fifteenth 4"@,
        OrganStop::PedalOctaveFlute4 => "Pedal Octave Flute 4"@,
        OrganStop::PedalMixtureIV => "Pedal Mixture IV"@,
        OrganStop::PedalDoubleOphicleide32 => "Pedal Double Ophicleide 32"@,
        OrganStop::PedalOphicleide16 => "Pedal Ophicleide 16"@,
        OrganStop::PedalTrombone16 => "Pedal Trombone 16"@,
        OrganStop::PedalFagotto16 => "Pedal Fagotto 16"@,
        OrganStop::PedalPosaune8 => "Pedal Posaune 8"@,
        OrganStop::PedalOctavePosaune4 => "Pedal Octave Posaune 4"@,
    }
}

impl OrganStop {
    /// The stop's identifier.
    pub fn to_u8(&self) -> (r: u8)
        ensures
            r == stop_id(*self),
    {
        match self {
            OrganStop::PedalSwellToPedal => 0,
            OrganStop::PedalSoloToPedal => 1,
            OrganStop::SoloContraViola16 => 3,
            OrganStop::SoloVioleDOrchestre8 => 4,
            OrganStop::SoloVioleCeleste8 => 5,
            OrganStop::SoloVioleSourdine8 => 6,
            OrganStop::SoloVioleOctaviante4 => 7,
            OrganStop::SoloCornetDeViolesIII => 8,
            OrganStop::SoloTuba8 => 9,
            OrganStop::SoloTubaClarion4 => 10,
            OrganStop::SoloSpareAStopLine => 11,
            OrganStop::SoloSpareBStopLine => 12,
            OrganStop::SoloTremulant => 13,
            OrganStop::SwellTremulant => 14,
            OrganStop::ChoirTremulant => 15,
            OrganStop::ChoirSubOctave => 16,
            OrganStop::ChoirUnisonOff => 17,
            OrganStop::ChoirOctave => 18,
            OrganStop::SoloHarmonicFlute8 => 19,
            OrganStop::SoloConcertFlute4 => 20,
            OrganStop::SoloHarmonicPiccolo2 => 21,
            OrganStop::SoloOrchestralOboe8 => 22,
            OrganStop::SoloCorAnglais8 => 23,
            OrganStop::SoloFrenchHorn8 => 24,
            OrganStop::SoloOrchestralTrumpet8 => 25,
            OrganStop::SwellSoloToSwell => 26,
            OrganStop::SoloSubOctave => 27,
            OrganStop::SoloUnisonOff => 28,
            OrganStop::SoloOctave => 29,
            OrganStop::SwellQuintaten16 => 30,
            OrganStop::SwellOpenDiapason8 => 31,
            OrganStop::SwellViolinDiapason8 => 32,
            OrganStop::SwellLieblichGedackt8 => 33,
            OrganStop::SwellEchoGamba8 => 34,
            OrganStop::SwellVoixCelestes8 => 35,
            OrganStop::SwellPrincipal4 => 36,
            OrganStop::SwellLieblichFlute4 => 37,
            OrganStop::SwellTwelfth2_2_3 => 38,
            OrganStop::SwellFifteenth2 => 39,
            OrganStop::SwellMixtureV => 40,
            OrganStop::SwellContraOboe16 => 41,
            OrganStop::SwellOboe8 => 42,
            OrganStop::SwellDoubleTrumpet16 => 43,
            OrganStop::SwellTrumpet8 => 44,
            OrganStop::SwellClarion4 => 45,
            OrganStop::SwellSpareAStopLine => 46,
            OrganStop::SwellSpareBStopLine => 47,
            OrganStop::GreatSoloToGreat => 48,
            OrganStop::GreatSwellToGreat => 49,
            OrganStop::GreatChoirToGreat => 50,
            OrganStop::GreatDoubleGeigen16 => 51,
            OrganStop::GreatOpenDiapasonI8 => 52,
            OrganStop::GreatOpenDiapasonII8 => 53,
            OrganStop::GreatOpenDiapasonIII8 => 54,
            OrganStop::GreatGeigen8 => 55,
            OrganStop::GreatHohlFlute8 => 56,
            OrganStop::GreatQuint5_1_3 => 57,
            OrganStop::GreatOctave4 => 58,
            OrganStop::GreatPrincipal4 => 59,
            OrganStop::GreatWaldFlute4 => 60,
            OrganStop::GreatOctaveQuint2_2_3 => 61,
            OrganStop::GreatSuperOctave2 => 62,
            OrganStop::GreatMixtureIII => 63,
            OrganStop::GreatMixtureV => 64,
            OrganStop::GreatSpareAStopLine => 65,
            OrganStop::GreatSpareBStopLine => 66,
            OrganStop::GreatContraTromba16 => 67,
            OrganStop::GreatTromba8 => 68,
            OrganStop::GreatOctaveTromba4 => 69,
            OrganStop::SwellSubOctave => 70,
            OrganStop::SwellUnisonOff => 71,
            OrganStop::SwellOctave => 72,
            OrganStop::ChoirSoloToChoir => 73,
            OrganStop::ChoirSwellToChoir => 74,
            OrganStop::ChoirOpenDiapason8 => 75,
            OrganStop::ChoirStoppedDiapason8 => 76,
            OrganStop::ChoirPrincipal4 => 77,
            OrganStop::ChoirStoppedFlute4 => 78,
            OrganStop::ChoirNazard2_2_3 => 79,
            OrganStop::ChoirSuperOctave2 => 80,
            OrganStop::ChoirTierce1_3_5 => 81,
            OrganStop::ChoirLarigot1_1_3 => 82,
            OrganStop::ChoirTwentySecond1 => 83,
            OrganStop::ChoirMixtureIII => 84,
            OrganStop::ChoirSpareUnenclosedStopLine => 85,
            OrganStop::ChoirDoubleDulciana16 => 86,
            OrganStop::ChoirClaribelFlute8 => 87,
            OrganStop::ChoirSalicional8 => 88,
            OrganStop::ChoirVoxAngelica8 => 89,
            OrganStop::ChoirDulciana8 => 90,
            OrganStop::ChoirDulcet4 => 91,
            OrganStop::ChoirClarinet8 => 92,
            OrganStop::ChoirCornopean8 => 93,
            OrganStop::ChoirSpareEnclosedStopLine => 94,
            OrganStop::ChoirContraTromba16 => 95,
            OrganStop::ChoirTromba8 => 96,
            OrganStop::ChoirOctaveTromba4 => 97,
            OrganStop::ChoirTuba8 => 98,
            OrganStop::PedalGreatToPedal => 99,
            OrganStop::PedalChoirToPedal => 100,
            OrganStop::PedalDoubleOpenWood32 => 101,
            OrganStop::PedalOpenMetal16 => 102,
            OrganStop::PedalOpenWoodI16 => 103,
            OrganStop::PedalOpenWoodII16 => 104,
            OrganStop::PedalViolone16 => 105,
            OrganStop::PedalBourdon16 => 106,
            OrganStop::PedalQuintaten16 => 107,
            OrganStop::PedalViola16 => 108,
            OrganStop::PedalDulciana16 => 109,
            OrganStop::PedalOctaveMetal8 => 110,
            OrganStop::PedalPrincipal8 => 111,
            OrganStop::PedalOctaveWood8 => 112,
            OrganStop::PedalFlute8 => 113,
            OrganStop::PedalOctaveQuint5_1_3 => 114,
            OrganStop::PedalSuperOctave4 => 115,
            OrganStop::PedalFifteenth4 => 116,
            OrganStop::PedalOctaveFlute4 => 117,
            OrganStop::PedalMixtureIV => 118,
            OrganStop::PedalDoubleOphicleide32 => 119,
            OrganStop::PedalOphicleide16 => 120,
            OrganStop::PedalTrombone16 => 121,
            OrganStop::PedalFagotto16 => 122,
            OrganStop::PedalPosaune8 => 123,
            OrganStop::PedalOctavePosaune4 => 124,
        }
    }

    /// The stop that carries identifier `n`; `None` for an identifier that
    /// no stop carries.
    pub fn from_u8(n: u8) -> (r: Option<OrganStop>)
        ensures
            r == stop_from_id(n),
    {
        match n {
            0 => Some(OrganStop::PedalSwellToPedal),
            1 => Some(OrganStop::PedalSoloToPedal),
            3 => Some(OrganStop::SoloContraViola16),
            4 => Some(OrganStop::SoloVioleDOrchestre8),
            5 => Some(OrganStop::SoloVioleCeleste8),
            6 => Some(OrganStop::SoloVioleSourdine8),
            7 => Some(OrganStop::SoloVioleOctaviante4),
            8 => Some(OrganStop::SoloCornetDeViolesIII),
            9 => Some(OrganStop::SoloTuba8),
            10 => Some(OrganStop::SoloTubaClarion4),
            11 => Some(OrganStop::SoloSpareAStopLine),
            12 => Some(OrganStop::SoloSpareBStopLine),
            13 => Some(OrganStop::SoloTremulant),
            14 => Some(OrganStop::SwellTremulant),
            15 => Some(OrganStop::ChoirTremulant),
            16 => Some(OrganStop::ChoirSubOctave),
            17 => Some(OrganStop::ChoirUnisonOff),
            18 => Some(OrganStop::ChoirOctave),
            19 => Some(OrganStop::SoloHarmonicFlute8),
            20 => Some(OrganStop::SoloConcertFlute4),
            21 => Some(OrganStop::SoloHarmonicPiccolo2),
            22 => Some(OrganStop::SoloOrchestralOboe8),
            23 => Some(OrganStop::SoloCorAnglais8),
            24 => Some(OrganStop::SoloFrenchHorn8),
            25 => Some(OrganStop::SoloOrchestralTrumpet8),
            26 => Some(OrganStop::SwellSoloToSwell),
            27 => Some(OrganStop::SoloSubOctave),
            28 => Some(OrganStop::SoloUnisonOff),
            29 => Some(OrganStop::SoloOctave),
            30 => Some(OrganStop::SwellQuintaten16),
            31 => Some(OrganStop::SwellOpenDiapason8),
            32 => Some(OrganStop::SwellViolinDiapason8),
            33 => Some(OrganStop::SwellLieblichGedackt8),
            34 => Some(OrganStop::SwellEchoGamba8),
            35 => Some(OrganStop::SwellVoixCelestes8),
            36 => Some(OrganStop::SwellPrincipal4),
            37 => Some(OrganStop::SwellLieblichFlute4),
            38 => Some(OrganStop::SwellTwelfth2_2_3),
            39 => Some(OrganStop::SwellFifteenth2),
            40 => Some(OrganStop::SwellMixtureV),
            41 => Some(OrganStop::SwellContraOboe16),
            42 => Some(OrganStop::SwellOboe8),
            43 => Some(OrganStop::SwellDoubleTrumpet16),
            44 => Some(OrganStop::SwellTrumpet8),
            45 => Some(OrganStop::SwellClarion4),
            46 => Some(OrganStop::SwellSpareAStopLine),
            47 => Some(OrganStop::SwellSpareBStopLine),
            48 => Some(OrganStop::GreatSoloToGreat),
            49 => Some(OrganStop::GreatSwellToGreat),
            50 => Some(OrganStop::GreatChoirToGreat),
            51 => Some(OrganStop::GreatDoubleGeigen16),
            52 => Some(OrganStop::GreatOpenDiapasonI8),
            53 => Some(OrganStop::GreatOpenDiapasonII8),
            54 => Some(OrganStop::GreatOpenDiapasonIII8),
            55 => Some(OrganStop::GreatGeigen8),
            56 => Some(OrganStop::GreatHohlFlute8),
            57 => Some(OrganStop::GreatQuint5_1_3),
            58 => Some(OrganStop::GreatOctave4),
            59 => Some(OrganStop::GreatPrincipal4),
            60 => Some(OrganStop::GreatWaldFlute4),
            61 => Some(OrganStop::GreatOctaveQuint2_2_3),
            62 => Some(OrganStop::GreatSuperOctave2),
            63 => Some(OrganStop::GreatMixtureIII),
            64 => Some(OrganStop::GreatMixtureV),
            65 => Some(OrganStop::GreatSpareAStopLine),
            66 => Some(OrganStop::GreatSpareBStopLine),
            67 => Some(OrganStop::GreatContraTromba16),
            68 => Some(OrganStop::GreatTromba8),
            69 => Some(OrganStop::GreatOctaveTromba4),
            70 => Some(OrganStop::SwellSubOctave),
            71 => Some(OrganStop::SwellUnisonOff),
            72 => Some(OrganStop::SwellOctave),
            73 => Some(OrganStop::ChoirSoloToChoir),
            74 => Some(OrganStop::ChoirSwellToChoir),
            75 => Some(OrganStop::ChoirOpenDiapason8),
            76 => Some(OrganStop::ChoirStoppedDiapason8),
            77 => Some(OrganStop::ChoirPrincipal4),
            78 => Some(OrganStop::ChoirStoppedFlute4),
            79 => Some(OrganStop::ChoirNazard2_2_3),
            80 => Some(OrganStop::ChoirSuperOctave2),
            81 => Some(OrganStop::ChoirTierce1_3_5),
            82 => Some(OrganStop::ChoirLarigot1_1_3),
            83 => Some(OrganStop::ChoirTwentySecond1),
            84 => Some(OrganStop::ChoirMixtureIII),
            85 => Some(OrganStop::ChoirSpareUnenclosedStopLine),
            86 => Some(OrganStop::ChoirDoubleDulciana16),
            87 => Some(OrganStop::ChoirClaribelFlute8),
            88 => Some(OrganStop::ChoirSalicional8),
            89 => Some(OrganStop::ChoirVoxAngelica8),
            90 => Some(OrganStop::ChoirDulciana8),
            91 => Some(OrganStop::ChoirDulcet4),
            92 => Some(OrganStop::ChoirClarinet8),
            93 => Some(OrganStop::ChoirCornopean8),
            94 => Some(OrganStop::ChoirSpareEnclosedStopLine),
            95 => Some(OrganStop::ChoirContraTromba16),
            96 => Some(OrganStop::ChoirTromba8),
            97 => Some(OrganStop::ChoirOctaveTromba4),
            98 => Some(OrganStop::ChoirTuba8),
            99 => Some(OrganStop::PedalGreatToPedal),
            100 => Some(OrganStop::PedalChoirToPedal),
            101 => Some(OrganStop::PedalDoubleOpenWood32),
            102 => Some(OrganStop::PedalOpenMetal16),
            103 => Some(OrganStop::PedalOpenWoodI16),
            104 => Some(OrganStop::PedalOpenWoodII16),
            105 => Some(OrganStop::PedalViolone16),
            106 => Some(OrganStop::PedalBourdon16),
            107 => Some(OrganStop::PedalQuintaten16),
            108 => Some(OrganStop::PedalViola16),
            109 => Some(OrganStop::PedalDulciana16),
            110 => Some(OrganStop::PedalOctaveMetal8),
            111 => Some(OrganStop::PedalPrincipal8),
            112 => Some(OrganStop::PedalOctaveWood8),
            113 => Some(OrganStop::PedalFlute8),
            114 => Some(OrganStop::PedalOctaveQuint5_1_3),
            115 => Some(OrganStop::PedalSuperOctave4),
            116 => Some(OrganStop::PedalFifteenth4),
            117 => Some(OrganStop::PedalOctaveFlute4),
            118 => Some(OrganStop::PedalMixtureIV),
            119 => Some(OrganStop::PedalDoubleOphicleide32),
            120 => Some(OrganStop::PedalOphicleide16),
            121 => Some(OrganStop::PedalTrombone16),
            122 => Some(OrganStop::PedalFagotto16),
            123 => Some(OrganStop::PedalPosaune8),
            124 => Some(OrganStop::PedalOctavePosaune4),
            _ => None,
        }
    }

    /// The stop's display name.
    pub fn display_name(&self) -> (r: &'static str)
        ensures
            r@ == stop_name(*self),
    {
        match self {
            OrganStop::PedalSwellToPedal => "Pedal Swell to Pedal",
            OrganStop::PedalSoloToPedal => "Pedal Solo to Pedal",
            OrganStop::SoloContraViola16 => "Solo Contra Viola 16",
            OrganStop::SoloVioleDOrchestre8 => "Solo Viole d'Orchestre 8",
            OrganStop::SoloVioleCeleste8 => "Solo Viole Celeste 8",
            OrganStop::SoloVioleSourdine8 => "Solo Viole Sourdine 8",
            OrganStop::SoloVioleOctaviante4 => "Solo Viole Octaviante 4",
            OrganStop::SoloCornetDeViolesIII => "Solo Cornet de Violes III",
            OrganStop::SoloTuba8 => "Solo Tuba 8",
            OrganStop::SoloTubaClarion4 => "Solo Tuba Clarion 4",
            OrganStop::SoloSpareAStopLine => "Solo Spare A Stop Line",
            OrganStop::SoloSpareBStopLine => "Solo Spare B Stop Line",
            OrganStop::SoloTremulant => "Solo Tremulant",
            OrganStop::SwellTremulant => "Swell Tremulant",
            OrganStop::ChoirTremulant => "Choir Tremulant",
            OrganStop::ChoirSubOctave => "Choir Sub Octave",
            OrganStop::ChoirUnisonOff => "Choir Unison Off",
            OrganStop::ChoirOctave => "Choir Octave",
            OrganStop::SoloHarmonicFlute8 => "Solo Harmonic Flute 8",
            OrganStop::SoloConcertFlute4 => "Solo Concert Flute 4",
            OrganStop::SoloHarmonicPiccolo2 => "Solo Harmonic Piccolo 2",
            OrganStop::SoloOrchestralOboe8 => "Solo Orchestral Oboe 8",
            OrganStop::SoloCorAnglais8 => "Solo Cor Anglais 8",
            OrganStop::SoloFrenchHorn8 => "Solo French Horn 8",
            OrganStop::SoloOrchestralTrumpet8 => "Solo Orchestral Trumpet 8",
            OrganStop::SwellSoloToSwell => "Swell Solo to Swell",
            OrganStop::SoloSubOctave => "Solo Sub Octave",
            OrganStop::SoloUnisonOff => "Solo Unison Off",
            OrganStop::SoloOctave => "Solo Octave",
            OrganStop::SwellQuintaten16 => "Swell Quintaten 16",
            OrganStop::SwellOpenDiapason8 => "Swell Open Diapason 8",
            OrganStop::SwellViolinDiapason8 => "Swell Violin Diapason 8",
            OrganStop::SwellLieblichGedackt8 => "Swell Lieblich Gedackt 8",
            OrganStop::SwellEchoGamba8 => "Swell Echo Gamba 8",
            OrganStop::SwellVoixCelestes8 => "Swell Voix Celestes 8",
            OrganStop::SwellPrincipal4 => "Swell Principal 4",
            OrganStop::SwellLieblichFlute4 => "Swell Lieblich Flute 4",
            OrganStop::SwellTwelfth2_2_3 => "Swell Twelfth 2 2/3",
            OrganStop::SwellFifteenth2 => "Swell Fifteenth 2",
            OrganStop::SwellMixtureV => "Swell Mixture V",
            OrganStop::SwellContraOboe16 => "Swell Contra Oboe 16",
            OrganStop::SwellOboe8 => "Swell Oboe 8",
            OrganStop::SwellDoubleTrumpet16 => "Swell Double Trumpet 16",
            OrganStop::SwellTrumpet8 => "Swell Trumpet 8",
            OrganStop::SwellClarion4 => "Swell Clarion 4",
            OrganStop::SwellSpareAStopLine => "Swell Spare A Stop Line",
            OrganStop::SwellSpareBStopLine => "Swell Spare B Stop Line",
            OrganStop::GreatSoloToGreat => "Great Solo to Great",
            OrganStop::GreatSwellToGreat => "Great Swell to Great",
            OrganStop::GreatChoirToGreat => "Great Choir to Great",
            OrganStop::GreatDoubleGeigen16 => "Great Double Geigen 16",
            OrganStop::GreatOpenDiapasonI8 => "Great Open Diapason I 8",
            OrganStop::GreatOpenDiapasonII8 => "Great Open Diapason II 8",
            OrganStop::GreatOpenDiapasonIII8 => "Great Open Diapason III 8",
            OrganStop::GreatGeigen8 => "Great Geigen 8",
            OrganStop::GreatHohlFlute8 => "Great Hohl Flute 8",
            OrganStop::GreatQuint5_1_3 => "Great Quint 5 1/3",
            OrganStop::GreatOctave4 => "Great Octave 4",
            OrganStop::GreatPrincipal4 => "Great Principal 4",
            OrganStop::GreatWaldFlute4 => "Great Wald Flute 4",
            OrganStop::GreatOctaveQuint2_2_3 => "Great Octave Quint 2 2/3",
            OrganStop::GreatSuperOctave2 => "Great Super Octave 2",
            OrganStop::GreatMixtureIII => "Great Mixture III",
            OrganStop::GreatMixtureV => "Great Mixture V",
            OrganStop::GreatSpareAStopLine => "Great Spare A Stop Line",
            OrganStop::GreatSpareBStopLine => "Great Spare B Stop Line",
            OrganStop::GreatContraTromba16 => "Great Contra Tromba 16",
            OrganStop::GreatTromba8 => "Great Tromba 8",
            OrganStop::GreatOctaveTromba4 => "Great Octave Tromba 4",
            OrganStop::SwellSubOctave => "Swell Sub Octave",
            OrganStop::SwellUnisonOff => "Swell Unison Off",
            OrganStop::SwellOctave => "Swell Octave",
            OrganStop::ChoirSoloToChoir => "Choir Solo to Choir",
            OrganStop::ChoirSwellToChoir => "Choir Swell to Choir",
            OrganStop::ChoirOpenDiapason8 => "Choir Open Diapason 8",
            OrganStop::ChoirStoppedDiapason8 => "Choir Stopped Diapason 8",
            OrganStop::ChoirPrincipal4 => "Choir Principal 4",
            OrganStop::ChoirStoppedFlute4 => "Choir Stopped Flute 4",
            OrganStop::ChoirNazard2_2_3 => "Choir Nazard 2 2/3",
            OrganStop::ChoirSuperOctave2 => "Choir Super Octave 2",
            OrganStop::ChoirTierce1_3_5 => "Choir Tierce 1 3/5",
            OrganStop::ChoirLarigot1_1_3 => "Choir Larigot 1 1/3",
            OrganStop::ChoirTwentySecond1 => "Choir Twenty-Second 1",
            OrganStop::ChoirMixtureIII => "Choir Mixture III",
            OrganStop::ChoirSpareUnenclosedStopLine => "Choir Spare Unenclosed Stop Line",
            OrganStop::ChoirDoubleDulciana16 => "Choir Double Dulciana 16",
            OrganStop::ChoirClaribelFlute8 => "Choir Claribel Flute 8",
            OrganStop::ChoirSalicional8 => "Choir Salicional 8",
            OrganStop::ChoirVoxAngelica8 => "Choir Vox Angelica 8",
            OrganStop::ChoirDulciana8 => "Choir Dulciana 8",
            OrganStop::ChoirDulcet4 => "Choir Dulcet 4",
            OrganStop::ChoirClarinet8 => "Choir Clarinet 8",
            OrganStop::ChoirCornopean8 => "Choir Cornopean 8",
            OrganStop::ChoirSpareEnclosedStopLine => "Choir Spare Enclosed Stop Line",
            OrganStop::ChoirContraTromba16 => "Choir Contra Tromba 16",
            OrganStop::ChoirTromba8 => "Choir Tromba 8",
            OrganStop::ChoirOctaveTromba4 => "Choir Octave Tromba 4",
            OrganStop::ChoirTuba8 => "Choir Tuba 8",
            OrganStop::PedalGreatToPedal => "Pedal Great to Pedal",
            OrganStop::PedalChoirToPedal => "Pedal Choir to Pedal",
            OrganStop::PedalDoubleOpenWood32 => "Pedal Double Open Wood 32",
            OrganStop::PedalOpenMetal16 => "Pedal Open Metal 16",
            OrganStop::PedalOpenWoodI16 => "Pedal Open Wood I 16",
            OrganStop::PedalOpenWoodII16 => "Pedal Open Wood II 16",
            OrganStop::PedalViolone16 => "Pedal Violone 16",
            OrganStop::PedalBourdon16 => "Pedal Bourdon 16",
            OrganStop::PedalQuintaten16 => "Pedal Quintaten 16",
            OrganStop::PedalViola16 => "Pedal Viola 16",
            OrganStop::PedalDulciana16 => "Pedal Dulciana 16",
            OrganStop::PedalOctaveMetal8 => "Pedal Octave Metal 8",
            OrganStop::PedalPrincipal8 => "Pedal Principal 8",
            OrganStop::PedalOctaveWood8 => "Pedal Octave Wood 8",
            OrganStop::PedalFlute8 => "Pedal Flute 8",
            OrganStop::PedalOctaveQuint5_1_3 => "Pedal Octave Quint 5 1/3",
            OrganStop::PedalSuperOctave4 => "Pedal Super Octave 4",
            OrganStop::PedalFifteenth4 => "Pedal Fifteenth 4",
            OrganStop::PedalOctaveFlute4 => "Pedal Octave Flute 4",
            OrganStop::PedalMixtureIV => "Pedal Mixture IV",
            OrganStop::PedalDoubleOphicleide32 => "Pedal Double Ophicleide 32",
            OrganStop::PedalOphicleide16 => "Pedal Ophicleide 16",
            OrganStop::PedalTrombone16 => "Pedal Trombone 16",
            OrganStop::PedalFagotto16 => "Pedal Fagotto 16",
            OrganStop::PedalPosaune8 => "Pedal Posaune 8",
            OrganStop::PedalOctavePosaune4 => "Pedal Octave Posaune 4",
        }
    }
}

/// Looking up a stop's identifier gives the stop back.
pub proof fn lemma_stop_id_round_trip(s: OrganStop)
    ensures
        stop_from_id(stop_id(s)) == Some(s),
{
}

/// An identifier finds a stop exactly when some stop carries it, and the stop
/// found carries that identifier.
pub proof fn lemma_stop_from_id(n: u8)
    ensures
        stop_from_id(n) is Some <==> is_stop_id(n),
        stop_from_id(n) is Some ==> stop_id(stop_from_id(n)->0) == n,
{
}

} // verus!
