//! The emoji alphabet.
//!
//! The table gives the symbol of each byte value. Its backward direction is
//! written out a second time, as one match arm per symbol, and the two are
//! proved to agree: each entry is matched at its own position, and each arm
//! names the entry at its position. From that it follows that the table
//! holds no symbol twice.

use vstd::prelude::*;
use crate::alphabet::{differ, is_alphabet, lemma_first_occurrence, lemma_no_occurrence, reverse_lookup, Alphabet};

verus! {

/// The symbols of the emoji alphabet, by byte value.
pub const EMOJI: Alphabet = [
    '🚀', '🪐', '☄', '🛰', '🌌', '🌑', '🌒', '🌓',
    '🌔', '🌕', '🌖', '🌗', '🌘', '🌍', '🌏', '🌎',
    '🐉', '☀', '💻', '🖥', '💾', '💿', '😂', '❤',
    '😍', '🤣', '😊', '🙏', '💕', '😭', '😘', '👍',
    '😅', '👏', '😁', '🔥', '🥰', '💔', '💖', '💙',
    '😢', '🤔', '😆', '🙄', '💪', '😉', '☺', '👌',
    '🤗', '💜', '😔', '😎', '😇', '🌹', '🤦', '🎉',
    '💞', '✌', '✨', '🤷', '😱', '😌', '🌸', '🙌',
    '😋', '💗', '💚', '😏', '💛', '🙂', '💓', '🤩',
    '😄', '😀', '🖤', '😃', '💯', '🙈', '👇', '🎶',
    '😒', '🤭', '❣', '😜', '💋', '👀', '😪', '😑',
    '💥', '🙋', '😞', '😩', '😡', '🤪', '👊', '🥳',
    '😥', '🤤', '👉', '💃', '😳', '✋', '😚', '😝',
    '😴', '🌟', '😬', '🙃', '🍀', '🌷', '😻', '😓',
    '⭐', '✅', '🥺', '🌈', '😈', '🤘', '💦', '✔',
    '😣', '🏃', '💐', '☹', '🎊', '💘', '😠', '☝',
    '😕', '🌺', '🎂', '🌻', '😐', '🖕', '💝', '🙊',
    '😹', '🗣', '💫', '💀', '👑', '🎵', '🤞', '😛',
    '🔴', '😤', '🌼', '😫', '⚽', '🤙', '☕', '🏆',
    '🤫', '👈', '😮', '🙆', '🍻', '🍃', '🐶', '💁',
    '😲', '🌿', '🧡', '🎁', '⚡', '🌞', '🎈', '❌',
    '✊', '👋', '😰', '🤨', '😶', '🤝', '🚶', '💰',
    '🍓', '💢', '🤟', '🙁', '🚨', '💨', '🤬', '✈',
    '🎀', '🍺', '🤓', '😙', '💟', '🌱', '😖', '👶',
    '🥴', '▶', '➡', '❓', '💎', '💸', '⬇', '😨',
    '🌚', '🦋', '😷', '🕺', '⚠', '🙅', '😟', '😵',
    '👎', '🤲', '🤠', '🤧', '📌', '🔵', '💅', '🧐',
    '🐾', '🍒', '😗', '🤑', '🌊', '🤯', '🐷', '☎',
    '💧', '😯', '💆', '👆', '🎤', '🙇', '🍑', '❄',
    '🌴', '💣', '🐸', '💌', '📍', '🥀', '🤢', '👅',
    '💡', '💩', '👐', '📸', '👻', '🤐', '🤮', '🎼',
    '🥵', '🚩', '🍎', '🍊', '👼', '💍', '📣', '🥂',
];

/// The byte value of each symbol of the emoji alphabet, arm by arm.
#[verifier::opaque]
pub open spec fn symbol_index(symbol: char) -> Option<u8> {
    match symbol {
        '🚀' => Some(0),
        '🪐' => Some(1),
        '☄' => Some(2),
        '🛰' => Some(3),
        '🌌' => Some(4),
        '🌑' => Some(5),
        '🌒' => Some(6),
        '🌓' => Some(7),
        '🌔' => Some(8),
        '🌕' => Some(9),
        '🌖' => Some(10),
        '🌗' => Some(11),
        '🌘' => Some(12),
        '🌍' => Some(13),
        '🌏' => Some(14),
        '🌎' => Some(15),
        '🐉' => Some(16),
        '☀' => Some(17),
        '💻' => Some(18),
        '🖥' => Some(19),
        '💾' => Some(20),
        '💿' => Some(21),
        '😂' => Some(22),
        '❤' => Some(23),
        '😍' => Some(24),
        '🤣' => Some(25),
        '😊' => Some(26),
        '🙏' => Some(27),
        '💕' => Some(28),
        '😭' => Some(29),
        '😘' => Some(30),
        '👍' => Some(31),
        '😅' => Some(32),
        '👏' => Some(33),
        '😁' => Some(34),
        '🔥' => Some(35),
        '🥰' => Some(36),
        '💔' => Some(37),
        '💖' => Some(38),
        '💙' => Some(39),
        '😢' => Some(40),
        '🤔' => Some(41),
        '😆' => Some(42),
        '🙄' => Some(43),
        '💪' => Some(44),
        '😉' => Some(45),
        '☺' => Some(46),
        '👌' => Some(47),
        '🤗' => Some(48),
        '💜' => Some(49),
        '😔' => Some(50),
        '😎' => Some(51),
        '😇' => Some(52),
        '🌹' => Some(53),
        '🤦' => Some(54),
        '🎉' => Some(55),
        '💞' => Some(56),
        '✌' => Some(57),
        '✨' => Some(58),
        '🤷' => Some(59),
        '😱' => Some(60),
        '😌' => Some(61),
        '🌸' => Some(62),
        '🙌' => Some(63),
        '😋' => Some(64),
        '💗' => Some(65),
        '💚' => Some(66),
        '😏' => Some(67),
        '💛' => Some(68),
        '🙂' => Some(69),
        '💓' => Some(70),
        '🤩' => Some(71),
        '😄' => Some(72),
        '😀' => Some(73),
        '🖤' => Some(74),
        '😃' => Some(75),
        '💯' => Some(76),
        '🙈' => Some(77),
        '👇' => Some(78),
        '🎶' => Some(79),
        '😒' => Some(80),
        '🤭' => Some(81),
        '❣' => Some(82),
        '😜' => Some(83),
        '💋' => Some(84),
        '👀' => Some(85),
        '😪' => Some(86),
        '😑' => Some(87),
        '💥' => Some(88),
        '🙋' => Some(89),
        '😞' => Some(90),
        '😩' => Some(91),
        '😡' => Some(92),
        '🤪' => Some(93),
        '👊' => Some(94),
        '🥳' => Some(95),
        '😥' => Some(96),
        '🤤' => Some(97),
        '👉' => Some(98),
        '💃' => Some(99),
        '😳' => Some(100),
        '✋' => Some(101),
        '😚' => Some(102),
        '😝' => Some(103),
        '😴' => Some(104),
        '🌟' => Some(105),
        '😬' => Some(106),
        '🙃' => Some(107),
        '🍀' => Some(108),
        '🌷' => Some(109),
        '😻' => Some(110),
        '😓' => Some(111),
        '⭐' => Some(112),
        '✅' => Some(113),
        '🥺' => Some(114),
        '🌈' => Some(115),
        '😈' => Some(116),
        '🤘' => Some(117),
        '💦' => Some(118),
        '✔' => Some(119),
        '😣' => Some(120),
        '🏃' => Some(121),
        '💐' => Some(122),
        '☹' => Some(123),
        '🎊' => Some(124),
        '💘' => Some(125),
        '😠' => Some(126),
        '☝' => Some(127),
        '😕' => Some(128),
        '🌺' => Some(129),
        '🎂' => Some(130),
        '🌻' => Some(131),
        '😐' => Some(132),
        '🖕' => Some(133),
        '💝' => Some(134),
        '🙊' => Some(135),
        '😹' => Some(136),
        '🗣' => Some(137),
        '💫' => Some(138),
        '💀' => Some(139),
        '👑' => Some(140),
        '🎵' => Some(141),
        '🤞' => Some(142),
        '😛' => Some(143),
        '🔴' => Some(144),
        '😤' => Some(145),
        '🌼' => Some(146),
        '😫' => Some(147),
        '⚽' => Some(148),
        '🤙' => Some(149),
        '☕' => Some(150),
        '🏆' => Some(151),
        '🤫' => Some(152),
        '👈' => Some(153),
        '😮' => Some(154),
        '🙆' => Some(155),
        '🍻' => Some(156),
        '🍃' => Some(157),
        '🐶' => Some(158),
        '💁' => Some(159),
        '😲' => Some(160),
        '🌿' => Some(161),
        '🧡' => Some(162),
        '🎁' => Some(163),
        '⚡' => Some(164),
        '🌞' => Some(165),
        '🎈' => Some(166),
        '❌' => Some(167),
        '✊' => Some(168),
        '👋' => Some(169),
        '😰' => Some(170),
        '🤨' => Some(171),
        '😶' => Some(172),
        '🤝' => Some(173),
        '🚶' => Some(174),
        '💰' => Some(175),
        '🍓' => Some(176),
        '💢' => Some(177),
        '🤟' => Some(178),
        '🙁' => Some(179),
        '🚨' => Some(180),
        '💨' => Some(181),
        '🤬' => Some(182),
        '✈' => Some(183),
        '🎀' => Some(184),
        '🍺' => Some(185),
        '🤓' => Some(186),
        '😙' => Some(187),
        '💟' => Some(188),
        '🌱' => Some(189),
        '😖' => Some(190),
        '👶' => Some(191),
        '🥴' => Some(192),
        '▶' => Some(193),
        '➡' => Some(194),
        '❓' => Some(195),
        '💎' => Some(196),
        '💸' => Some(197),
        '⬇' => Some(198),
        '😨' => Some(199),
        '🌚' => Some(200),
        '🦋' => Some(201),
        '😷' => Some(202),
        '🕺' => Some(203),
        '⚠' => Some(204),
        '🙅' => Some(205),
        '😟' => Some(206),
        '😵' => Some(207),
        '👎' => Some(208),
        '🤲' => Some(209),
        '🤠' => Some(210),
        '🤧' => Some(211),
        '📌' => Some(212),
        '🔵' => Some(213),
        '💅' => Some(214),
        '🧐' => Some(215),
        '🐾' => Some(216),
        '🍒' => Some(217),
        '😗' => Some(218),
        '🤑' => Some(219),
        '🌊' => Some(220),
        '🤯' => Some(221),
        '🐷' => Some(222),
        '☎' => Some(223),
        '💧' => Some(224),
        '😯' => Some(225),
        '💆' => Some(226),
        '👆' => Some(227),
        '🎤' => Some(228),
        '🙇' => Some(229),
        '🍑' => Some(230),
        '❄' => Some(231),
        '🌴' => Some(232),
        '💣' => Some(233),
        '🐸' => Some(234),
        '💌' => Some(235),
        '📍' => Some(236),
        '🥀' => Some(237),
        '🤢' => Some(238),
        '👅' => Some(239),
        '💡' => Some(240),
        '💩' => Some(241),
        '👐' => Some(242),
        '📸' => Some(243),
        '👻' => Some(244),
        '🤐' => Some(245),
        '🤮' => Some(246),
        '🎼' => Some(247),
        '🥵' => Some(248),
        '🚩' => Some(249),
        '🍎' => Some(250),
        '🍊' => Some(251),
        '👼' => Some(252),
        '💍' => Some(253),
        '📣' => Some(254),
        '🥂' => Some(255),
        _ => None,
    }
}

/// Each entry of the table is matched at its own position. The solver goes
/// through the 256 entries one by one, which takes more than the usual
/// resource limit.
#[verifier::rlimit(50)]
proof fn lemma_entry_is_matched(byte: int)
    requires
        0 <= byte < 256,
    ensures
        symbol_index(EMOJI@[byte]) == Some(byte as u8),
{
    reveal(symbol_index);
}

/// Each arm names the entry at its position.
proof fn lemma_match_names_entry(symbol: char)
    ensures
        symbol_index(symbol) matches Some(byte) ==> EMOJI@[byte as int] == symbol,
{
    reveal(symbol_index);
}

/// The emoji table is an alphabet: 256 symbols, none of them twice.
pub proof fn lemma_emoji_is_alphabet()
    ensures
        is_alphabet(EMOJI@),
{
    assert forall|i: int, j: int| 0 <= i < j < 256 implies #[trigger] differ(EMOJI@, i, j) by {
        lemma_entry_is_matched(i);
        lemma_entry_is_matched(j);
    }
}

/// The match and the table describe the same backward direction.
pub proof fn lemma_symbol_index_is_lookup(symbol: char)
    ensures
        symbol_index(symbol) == reverse_lookup(EMOJI@, symbol),
{
    lemma_match_names_entry(symbol);
    assert forall|j: int| 0 <= j < 256 && EMOJI@[j] == symbol implies symbol_index(symbol)
        == Some(j as u8) by {
        lemma_entry_is_matched(j);
    }
    match symbol_index(symbol) {
        Some(byte) => {
            lemma_first_occurrence(EMOJI@, symbol, byte as int);
        },
        None => {
            lemma_no_occurrence(EMOJI@, symbol);
        },
    }
}

/// Looks `symbol` up in the emoji alphabet by a match over its symbols.
pub fn match_symbol(symbol: char) -> (found: Option<u8>)
    ensures
        found == reverse_lookup(EMOJI@, symbol),
{
    let found: Option<u8> = match symbol {
        '🚀' => Some(0),
        '🪐' => Some(1),
        '☄' => Some(2),
        '🛰' => Some(3),
        '🌌' => Some(4),
        '🌑' => Some(5),
        '🌒' => Some(6),
        '🌓' => Some(7),
        '🌔' => Some(8),
        '🌕' => Some(9),
        '🌖' => Some(10),
        '🌗' => Some(11),
        '🌘' => Some(12),
        '🌍' => Some(13),
        '🌏' => Some(14),
        '🌎' => Some(15),
        '🐉' => Some(16),
        '☀' => Some(17),
        '💻' => Some(18),
        '🖥' => Some(19),
        '💾' => Some(20),
        '💿' => Some(21),
        '😂' => Some(22),
        '❤' => Some(23),
        '😍' => Some(24),
        '🤣' => Some(25),
        '😊' => Some(26),
        '🙏' => Some(27),
        '💕' => Some(28),
        '😭' => Some(29),
        '😘' => Some(30),
        '👍' => Some(31),
        '😅' => Some(32),
        '👏' => Some(33),
        '😁' => Some(34),
        '🔥' => Some(35),
        '🥰' => Some(36),
        '💔' => Some(37),
        '💖' => Some(38),
        '💙' => Some(39),
        '😢' => Some(40),
        '🤔' => Some(41),
        '😆' => Some(42),
        '🙄' => Some(43),
        '💪' => Some(44),
        '😉' => Some(45),
        '☺' => Some(46),
        '👌' => Some(47),
        '🤗' => Some(48),
        '💜' => Some(49),
        '😔' => Some(50),
        '😎' => Some(51),
        '😇' => Some(52),
        '🌹' => Some(53),
        '🤦' => Some(54),
        '🎉' => Some(55),
        '💞' => Some(56),
        '✌' => Some(57),
        '✨' => Some(58),
        '🤷' => Some(59),
        '😱' => Some(60),
        '😌' => Some(61),
        '🌸' => Some(62),
        '🙌' => Some(63),
        '😋' => Some(64),
        '💗' => Some(65),
        '💚' => Some(66),
        '😏' => Some(67),
        '💛' => Some(68),
        '🙂' => Some(69),
        '💓' => Some(70),
        '🤩' => Some(71),
        '😄' => Some(72),
        '😀' => Some(73),
        '🖤' => Some(74),
        '😃' => Some(75),
        '💯' => Some(76),
        '🙈' => Some(77),
        '👇' => Some(78),
        '🎶' => Some(79),
        '😒' => Some(80),
        '🤭' => Some(81),
        '❣' => Some(82),
        '😜' => Some(83),
        '💋' => Some(84),
        '👀' => Some(85),
        '😪' => Some(86),
        '😑' => Some(87),
        '💥' => Some(88),
        '🙋' => Some(89),
        '😞' => Some(90),
        '😩' => Some(91),
        '😡' => Some(92),
        '🤪' => Some(93),
        '👊' => Some(94),
        '🥳' => Some(95),
        '😥' => Some(96),
        '🤤' => Some(97),
        '👉' => Some(98),
        '💃' => Some(99),
        '😳' => Some(100),
        '✋' => Some(101),
        '😚' => Some(102),
        '😝' => Some(103),
        '😴' => Some(104),
        '🌟' => Some(105),
        '😬' => Some(106),
        '🙃' => Some(107),
        '🍀' => Some(108),
        '🌷' => Some(109),
        '😻' => Some(110),
        '😓' => Some(111),
        '⭐' => Some(112),
        '✅' => Some(113),
        '🥺' => Some(114),
        '🌈' => Some(115),
        '😈' => Some(116),
        '🤘' => Some(117),
        '💦' => Some(118),
        '✔' => Some(119),
        '😣' => Some(120),
        '🏃' => Some(121),
        '💐' => Some(122),
        '☹' => Some(123),
        '🎊' => Some(124),
        '💘' => Some(125),
        '😠' => Some(126),
        '☝' => Some(127),
        '😕' => Some(128),
        '🌺' => Some(129),
        '🎂' => Some(130),
        '🌻' => Some(131),
        '😐' => Some(132),
        '🖕' => Some(133),
        '💝' => Some(134),
        '🙊' => Some(135),
        '😹' => Some(136),
        '🗣' => Some(137),
        '💫' => Some(138),
        '💀' => Some(139),
        '👑' => Some(140),
        '🎵' => Some(141),
        '🤞' => Some(142),
        '😛' => Some(143),
        '🔴' => Some(144),
        '😤' => Some(145),
        '🌼' => Some(146),
        '😫' => Some(147),
        '⚽' => Some(148),
        '🤙' => Some(149),
        '☕' => Some(150),
        '🏆' => Some(151),
        '🤫' => Some(152),
        '👈' => Some(153),
        '😮' => Some(154),
        '🙆' => Some(155),
        '🍻' => Some(156),
        '🍃' => Some(157),
        '🐶' => Some(158),
        '💁' => Some(159),
        '😲' => Some(160),
        '🌿' => Some(161),
        '🧡' => Some(162),
        '🎁' => Some(163),
        '⚡' => Some(164),
        '🌞' => Some(165),
        '🎈' => Some(166),
        '❌' => Some(167),
        '✊' => Some(168),
        '👋' => Some(169),
        '😰' => Some(170),
        '🤨' => Some(171),
        '😶' => Some(172),
        '🤝' => Some(173),
        '🚶' => Some(174),
        '💰' => Some(175),
        '🍓' => Some(176),
        '💢' => Some(177),
        '🤟' => Some(178),
        '🙁' => Some(179),
        '🚨' => Some(180),
        '💨' => Some(181),
        '🤬' => Some(182),
        '✈' => Some(183),
        '🎀' => Some(184),
        '🍺' => Some(185),
        '🤓' => Some(186),
        '😙' => Some(187),
        '💟' => Some(188),
        '🌱' => Some(189),
        '😖' => Some(190),
        '👶' => Some(191),
        '🥴' => Some(192),
        '▶' => Some(193),
        '➡' => Some(194),
        '❓' => Some(195),
        '💎' => Some(196),
        '💸' => Some(197),
        '⬇' => Some(198),
        '😨' => Some(199),
        '🌚' => Some(200),
        '🦋' => Some(201),
        '😷' => Some(202),
        '🕺' => Some(203),
        '⚠' => Some(204),
        '🙅' => Some(205),
        '😟' => Some(206),
        '😵' => Some(207),
        '👎' => Some(208),
        '🤲' => Some(209),
        '🤠' => Some(210),
        '🤧' => Some(211),
        '📌' => Some(212),
        '🔵' => Some(213),
        '💅' => Some(214),
        '🧐' => Some(215),
        '🐾' => Some(216),
        '🍒' => Some(217),
        '😗' => Some(218),
        '🤑' => Some(219),
        '🌊' => Some(220),
        '🤯' => Some(221),
        '🐷' => Some(222),
        '☎' => Some(223),
        '💧' => Some(224),
        '😯' => Some(225),
        '💆' => Some(226),
        '👆' => Some(227),
        '🎤' => Some(228),
        '🙇' => Some(229),
        '🍑' => Some(230),
        '❄' => Some(231),
        '🌴' => Some(232),
        '💣' => Some(233),
        '🐸' => Some(234),
        '💌' => Some(235),
        '📍' => Some(236),
        '🥀' => Some(237),
        '🤢' => Some(238),
        '👅' => Some(239),
        '💡' => Some(240),
        '💩' => Some(241),
        '👐' => Some(242),
        '📸' => Some(243),
        '👻' => Some(244),
        '🤐' => Some(245),
        '🤮' => Some(246),
        '🎼' => Some(247),
        '🥵' => Some(248),
        '🚩' => Some(249),
        '🍎' => Some(250),
        '🍊' => Some(251),
        '👼' => Some(252),
        '💍' => Some(253),
        '📣' => Some(254),
        '🥂' => Some(255),
        _ => None,
    };
    proof {
        assert(found == symbol_index(symbol)) by {
            reveal(symbol_index);
        }
        lemma_symbol_index_is_lookup(symbol);
    }
    found
}

} // verus!
