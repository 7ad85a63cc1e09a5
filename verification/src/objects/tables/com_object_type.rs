//! Value field types of communication objects (the type octet of a descriptor).

use vstd::prelude::*;
use vstd::std_specs::convert::FromSpecImpl;

verus! {

/// Communication object data type; every octet names one.
#[derive(Debug, Clone, Copy, PartialEq, Eq, Structural)]
pub enum ComObjectType {
    Uint1,
    Uint2,
    Uint3,
    Uint4,
    Uint5,
    Uint6,
    Uint7,
    Byte1,
    Byte2,
    Byte3,
    Byte4,
    Byte6,
    Byte8,
    Byte10,
    Byte14,
    Byte5,
    Byte7,
    Byte9,
    Byte11,
    Byte12,
    Byte13,
    Byte15,
    Byte16,
    Byte17,
    Byte18,
    Byte19,
    Byte20,
    Byte21,
    Byte22,
    Byte23,
    Byte24,
    Byte25,
    Byte26,
    Byte27,
    Byte28,
    Byte29,
    Byte30,
    Byte31,
    Byte32,
    Byte33,
    Byte34,
    Byte35,
    Byte36,
    Byte37,
    Byte38,
    Byte39,
    Byte40,
    Byte41,
    Byte42,
    Byte43,
    Byte44,
    Byte45,
    Byte46,
    Byte47,
    Byte48,
    Byte49,
    Byte50,
    Byte51,
    Byte52,
    Byte53,
    Byte54,
    Byte55,
    Byte56,
    Byte57,
    Byte58,
    Byte59,
    Byte60,
    Byte61,
    Byte62,
    Byte63,
    Byte64,
    Byte65,
    Byte66,
    Byte67,
    Byte68,
    Byte69,
    Byte70,
    Byte71,
    Byte72,
    Byte73,
    Byte74,
    Byte75,
    Byte76,
    Byte77,
    Byte78,
    Byte79,
    Byte80,
    Byte81,
    Byte82,
    Byte83,
    Byte84,
    Byte85,
    Byte86,
    Byte87,
    Byte88,
    Byte89,
    Byte90,
    Byte91,
    Byte92,
    Byte93,
    Byte94,
    Byte95,
    Byte96,
    Byte97,
    Byte98,
    Byte99,
    Byte100,
    Byte101,
    Byte102,
    Byte103,
    Byte104,
    Byte105,
    Byte106,
    Byte107,
    Byte108,
    Byte109,
    Byte110,
    Byte111,
    Byte112,
    Byte113,
    Byte114,
    Byte115,
    Byte116,
    Byte117,
    Byte118,
    Byte119,
    Byte120,
    Byte121,
    Byte122,
    Byte123,
    Byte124,
    Byte125,
    Byte126,
    Byte127,
    Byte128,
    Byte129,
    Byte130,
    Byte131,
    Byte132,
    Byte133,
    Byte134,
    Byte135,
    Byte136,
    Byte137,
    Byte138,
    Byte139,
    Byte140,
    Byte141,
    Byte142,
    Byte143,
    Byte144,
    Byte145,
    Byte146,
    Byte147,
    Byte148,
    Byte149,
    Byte150,
    Byte151,
    Byte152,
    Byte153,
    Byte154,
    Byte155,
    Byte156,
    Byte157,
    Byte158,
    Byte159,
    Byte160,
    Byte161,
    Byte162,
    Byte163,
    Byte164,
    Byte165,
    Byte166,
    Byte167,
    Byte168,
    Byte169,
    Byte170,
    Byte171,
    Byte172,
    Byte173,
    Byte174,
    Byte175,
    Byte176,
    Byte177,
    Byte178,
    Byte179,
    Byte180,
    Byte181,
    Byte182,
    Byte183,
    Byte184,
    Byte185,
    Byte186,
    Byte187,
    Byte188,
    Byte189,
    Byte190,
    Byte191,
    Byte192,
    Byte193,
    Byte194,
    Byte195,
    Byte196,
    Byte197,
    Byte198,
    Byte199,
    Byte200,
    Byte201,
    Byte202,
    Byte203,
    Byte204,
    Byte205,
    Byte206,
    Byte207,
    Byte208,
    Byte209,
    Byte210,
    Byte211,
    Byte212,
    Byte213,
    Byte214,
    Byte215,
    Byte216,
    Byte217,
    Byte218,
    Byte219,
    Byte220,
    Byte221,
    Byte222,
    Byte223,
    Byte224,
    Byte225,
    Byte226,
    Byte227,
    Byte228,
    Byte229,
    Byte230,
    Byte231,
    Byte232,
    Byte233,
    Byte234,
    Byte235,
    Byte236,
    Byte237,
    Byte238,
    Byte239,
    Byte240,
    Byte241,
    Byte242,
    Byte243,
    Byte244,
    Byte245,
    Byte246,
    Byte247,
    Byte248,
    Byte252,
}

impl ComObjectType {
    /// The octet that encodes this type.
    pub open spec fn code(self) -> u8 {
        match self {
            ComObjectType::Uint1 => 0,
            ComObjectType::Uint2 => 1,
            ComObjectType::Uint3 => 2,
            ComObjectType::Uint4 => 3,
            ComObjectType::Uint5 => 4,
            ComObjectType::Uint6 => 5,
            ComObjectType::Uint7 => 6,
            ComObjectType::Byte1 => 7,
            ComObjectType::Byte2 => 8,
            ComObjectType::Byte3 => 9,
            ComObjectType::Byte4 => 10,
            ComObjectType::Byte6 => 11,
            ComObjectType::Byte8 => 12,
            ComObjectType::Byte10 => 13,
            ComObjectType::Byte14 => 14,
            ComObjectType::Byte5 => 15,
            ComObjectType::Byte7 => 16,
            ComObjectType::Byte9 => 17,
            ComObjectType::Byte11 => 18,
            ComObjectType::Byte12 => 19,
            ComObjectType::Byte13 => 20,
            ComObjectType::Byte15 => 21,
            ComObjectType::Byte16 => 22,
            ComObjectType::Byte17 => 23,
            ComObjectType::Byte18 => 24,
            ComObjectType::Byte19 => 25,
            ComObjectType::Byte20 => 26,
            ComObjectType::Byte21 => 27,
            ComObjectType::Byte22 => 28,
            ComObjectType::Byte23 => 29,
            ComObjectType::Byte24 => 30,
            ComObjectType::Byte25 => 31,
            ComObjectType::Byte26 => 32,
            ComObjectType::Byte27 => 33,
            ComObjectType::Byte28 => 34,
            ComObjectType::Byte29 => 35,
            ComObjectType::Byte30 => 36,
            ComObjectType::Byte31 => 37,
            ComObjectType::Byte32 => 38,
            ComObjectType::Byte33 => 39,
            ComObjectType::Byte34 => 40,
            ComObjectType::Byte35 => 41,
            ComObjectType::Byte36 => 42,
            ComObjectType::Byte37 => 43,
            ComObjectType::Byte38 => 44,
            ComObjectType::Byte39 => 45,
            ComObjectType::Byte40 => 46,
            ComObjectType::Byte41 => 47,
            ComObjectType::Byte42 => 48,
            ComObjectType::Byte43 => 49,
            ComObjectType::Byte44 => 50,
            ComObjectType::Byte45 => 51,
            ComObjectType::Byte46 => 52,
            ComObjectType::Byte47 => 53,
            ComObjectType::Byte48 => 54,
            ComObjectType::Byte49 => 55,
            ComObjectType::Byte50 => 56,
            ComObjectType::Byte51 => 57,
            ComObjectType::Byte52 => 58,
            ComObjectType::Byte53 => 59,
            ComObjectType::Byte54 => 60,
            ComObjectType::Byte55 => 61,
            ComObjectType::Byte56 => 62,
            ComObjectType::Byte57 => 63,
            ComObjectType::Byte58 => 64,
            ComObjectType::Byte59 => 65,
            ComObjectType::Byte60 => 66,
            ComObjectType::Byte61 => 67,
            ComObjectType::Byte62 => 68,
            ComObjectType::Byte63 => 69,
            ComObjectType::Byte64 => 70,
            ComObjectType::Byte65 => 71,
            ComObjectType::Byte66 => 72,
            ComObjectType::Byte67 => 73,
            ComObjectType::Byte68 => 74,
            ComObjectType::Byte69 => 75,
            ComObjectType::Byte70 => 76,
            ComObjectType::Byte71 => 77,
            ComObjectType::Byte72 => 78,
            ComObjectType::Byte73 => 79,
            ComObjectType::Byte74 => 80,
            ComObjectType::Byte75 => 81,
            ComObjectType::Byte76 => 82,
            ComObjectType::Byte77 => 83,
            ComObjectType::Byte78 => 84,
            ComObjectType::Byte79 => 85,
            ComObjectType::Byte80 => 86,
            ComObjectType::Byte81 => 87,
            ComObjectType::Byte82 => 88,
            ComObjectType::Byte83 => 89,
            ComObjectType::Byte84 => 90,
            ComObjectType::Byte85 => 91,
            ComObjectType::Byte86 => 92,
            ComObjectType::Byte87 => 93,
            ComObjectType::Byte88 => 94,
            ComObjectType::Byte89 => 95,
            ComObjectType::Byte90 => 96,
            ComObjectType::Byte91 => 97,
            ComObjectType::Byte92 => 98,
            ComObjectType::Byte93 => 99,
            ComObjectType::Byte94 => 100,
            ComObjectType::Byte95 => 101,
            ComObjectType::Byte96 => 102,
            ComObjectType::Byte97 => 103,
            ComObjectType::Byte98 => 104,
            ComObjectType::Byte99 => 105,
            ComObjectType::Byte100 => 106,
            ComObjectType::Byte101 => 107,
            ComObjectType::Byte102 => 108,
            ComObjectType::Byte103 => 109,
            ComObjectType::Byte104 => 110,
            ComObjectType::Byte105 => 111,
            ComObjectType::Byte106 => 112,
            ComObjectType::Byte107 => 113,
            ComObjectType::Byte108 => 114,
            ComObjectType::Byte109 => 115,
            ComObjectType::Byte110 => 116,
            ComObjectType::Byte111 => 117,
            ComObjectType::Byte112 => 118,
            ComObjectType::Byte113 => 119,
            ComObjectType::Byte114 => 120,
            ComObjectType::Byte115 => 121,
            ComObjectType::Byte116 => 122,
            ComObjectType::Byte117 => 123,
            ComObjectType::Byte118 => 124,
            ComObjectType::Byte119 => 125,
            ComObjectType::Byte120 => 126,
            ComObjectType::Byte121 => 127,
            ComObjectType::Byte122 => 128,
            ComObjectType::Byte123 => 129,
            ComObjectType::Byte124 => 130,
            ComObjectType::Byte125 => 131,
            ComObjectType::Byte126 => 132,
            ComObjectType::Byte127 => 133,
            ComObjectType::Byte128 => 134,
            ComObjectType::Byte129 => 135,
            ComObjectType::Byte130 => 136,
            ComObjectType::Byte131 => 137,
            ComObjectType::Byte132 => 138,
            ComObjectType::Byte133 => 139,
            ComObjectType::Byte134 => 140,
            ComObjectType::Byte135 => 141,
            ComObjectType::Byte136 => 142,
            ComObjectType::Byte137 => 143,
            ComObjectType::Byte138 => 144,
            ComObjectType::Byte139 => 145,
            ComObjectType::Byte140 => 146,
            ComObjectType::Byte141 => 147,
            ComObjectType::Byte142 => 148,
            ComObjectType::Byte143 => 149,
            ComObjectType::Byte144 => 150,
            ComObjectType::Byte145 => 151,
            ComObjectType::Byte146 => 152,
            ComObjectType::Byte147 => 153,
            ComObjectType::Byte148 => 154,
            ComObjectType::Byte149 => 155,
            ComObjectType::Byte150 => 156,
            ComObjectType::Byte151 => 157,
            ComObjectType::Byte152 => 158,
            ComObjectType::Byte153 => 159,
            ComObjectType::Byte154 => 160,
            ComObjectType::Byte155 => 161,
            ComObjectType::Byte156 => 162,
            ComObjectType::Byte157 => 163,
            ComObjectType::Byte158 => 164,
            ComObjectType::Byte159 => 165,
            ComObjectType::Byte160 => 166,
            ComObjectType::Byte161 => 167,
            ComObjectType::Byte162 => 168,
            ComObjectType::Byte163 => 169,
            ComObjectType::Byte164 => 170,
            ComObjectType::Byte165 => 171,
            ComObjectType::Byte166 => 172,
            ComObjectType::Byte167 => 173,
            ComObjectType::Byte168 => 174,
            ComObjectType::Byte169 => 175,
            ComObjectType::Byte170 => 176,
            ComObjectType::Byte171 => 177,
            ComObjectType::Byte172 => 178,
            ComObjectType::Byte173 => 179,
            ComObjectType::Byte174 => 180,
            ComObjectType::Byte175 => 181,
            ComObjectType::Byte176 => 182,
            ComObjectType::Byte177 => 183,
            ComObjectType::Byte178 => 184,
            ComObjectType::Byte179 => 185,
            ComObjectType::Byte180 => 186,
            ComObjectType::Byte181 => 187,
            ComObjectType::Byte182 => 188,
            ComObjectType::Byte183 => 189,
            ComObjectType::Byte184 => 190,
            ComObjectType::Byte185 => 191,
            ComObjectType::Byte186 => 192,
            ComObjectType::Byte187 => 193,
            ComObjectType::Byte188 => 194,
            ComObjectType::Byte189 => 195,
            ComObjectType::Byte190 => 196,
            ComObjectType::Byte191 => 197,
            ComObjectType::Byte192 => 198,
            ComObjectType::Byte193 => 199,
            ComObjectType::Byte194 => 200,
            ComObjectType::Byte195 => 201,
            ComObjectType::Byte196 => 202,
            ComObjectType::Byte197 => 203,
            ComObjectType::Byte198 => 204,
            ComObjectType::Byte199 => 205,
            ComObjectType::Byte200 => 206,
            ComObjectType::Byte201 => 207,
            ComObjectType::Byte202 => 208,
            ComObjectType::Byte203 => 209,
            ComObjectType::Byte204 => 210,
            ComObjectType::Byte205 => 211,
            ComObjectType::Byte206 => 212,
            ComObjectType::Byte207 => 213,
            ComObjectType::Byte208 => 214,
            ComObjectType::Byte209 => 215,
            ComObjectType::Byte210 => 216,
            ComObjectType::Byte211 => 217,
            ComObjectType::Byte212 => 218,
            ComObjectType::Byte213 => 219,
            ComObjectType::Byte214 => 220,
            ComObjectType::Byte215 => 221,
            ComObjectType::Byte216 => 222,
            ComObjectType::Byte217 => 223,
            ComObjectType::Byte218 => 224,
            ComObjectType::Byte219 => 225,
            ComObjectType::Byte220 => 226,
            ComObjectType::Byte221 => 227,
            ComObjectType::Byte222 => 228,
            ComObjectType::Byte223 => 229,
            ComObjectType::Byte224 => 230,
            ComObjectType::Byte225 => 231,
            ComObjectType::Byte226 => 232,
            ComObjectType::Byte227 => 233,
            ComObjectType::Byte228 => 234,
            ComObjectType::Byte229 => 235,
            ComObjectType::Byte230 => 236,
            ComObjectType::Byte231 => 237,
            ComObjectType::Byte232 => 238,
            ComObjectType::Byte233 => 239,
            ComObjectType::Byte234 => 240,
            ComObjectType::Byte235 => 241,
            ComObjectType::Byte236 => 242,
            ComObjectType::Byte237 => 243,
            ComObjectType::Byte238 => 244,
            ComObjectType::Byte239 => 245,
            ComObjectType::Byte240 => 246,
            ComObjectType::Byte241 => 247,
            ComObjectType::Byte242 => 248,
            ComObjectType::Byte243 => 249,
            ComObjectType::Byte244 => 250,
            ComObjectType::Byte245 => 251,
            ComObjectType::Byte246 => 252,
            ComObjectType::Byte247 => 253,
            ComObjectType::Byte248 => 254,
            ComObjectType::Byte252 => 255,
        }
    }

    /// The type an octet encodes.
    pub open spec fn decode(b: u8) -> ComObjectType {
        if b < 128 {
            if b < 64 {
                if b < 32 {
                    if b < 16 {
                        if b < 8 {
                            if b < 4 {
                                if b < 2 {
                                    if b < 1 {
                                        ComObjectType::Uint1
                                    } else {
                                        ComObjectType::Uint2
                                    }
                                } else {
                                    if b < 3 {
                                        ComObjectType::Uint3
                                    } else {
                                        ComObjectType::Uint4
                                    }
                                }
                            } else {
                                if b < 6 {
                                    if b < 5 {
                                        ComObjectType::Uint5
                                    } else {
                                        ComObjectType::Uint6
                                    }
                                } else {
                                    if b < 7 {
                                        ComObjectType::Uint7
                                    } else {
                                        ComObjectType::Byte1
                                    }
                                }
                            }
                        } else {
                            if b < 12 {
                                if b < 10 {
                                    if b < 9 {
                                        ComObjectType::Byte2
                                    } else {
                                        ComObjectType::Byte3
                                    }
                                } else {
                                    if b < 11 {
                                        ComObjectType::Byte4
                                    } else {
                                        ComObjectType::Byte6
                                    }
                                }
                            } else {
                                if b < 14 {
                                    if b < 13 {
                                        ComObjectType::Byte8
                                    } else {
                                        ComObjectType::Byte10
                                    }
                                } else {
                                    if b < 15 {
                                        ComObjectType::Byte14
                                    } else {
                                        ComObjectType::Byte5
                                    }
                                }
                            }
                        }
                    } else {
                        if b < 24 {
                            if b < 20 {
                                if b < 18 {
                                    if b < 17 {
                                        ComObjectType::Byte7
                                    } else {
                                        ComObjectType::Byte9
                                    }
                                } else {
                                    if b < 19 {
                                        ComObjectType::Byte11
                                    } else {
                                        ComObjectType::Byte12
                                    }
                                }
                            } else {
                                if b < 22 {
                                    if b < 21 {
                                        ComObjectType::Byte13
                                    } else {
                                        ComObjectType::Byte15
                                    }
                                } else {
                                    if b < 23 {
                                        ComObjectType::Byte16
                                    } else {
                                        ComObjectType::Byte17
                                    }
                                }
                            }
                        } else {
                            if b < 28 {
                                if b < 26 {
                                    if b < 25 {
                                        ComObjectType::Byte18
                                    } else {
                                        ComObjectType::Byte19
                                    }
                                } else {
                                    if b < 27 {
                                        ComObjectType::Byte20
                                    } else {
                                        ComObjectType::Byte21
                                    }
                                }
                            } else {
                                if b < 30 {
                                    if b < 29 {
                                        ComObjectType::Byte22
                                    } else {
                                        ComObjectType::Byte23
                                    }
                                } else {
                                    if b < 31 {
                                        ComObjectType::Byte24
                                    } else {
                                        ComObjectType::Byte25
                                    }
                                }
                            }
                        }
                    }
                } else {
                    if b < 48 {
                        if b < 40 {
                            if b < 36 {
                                if b < 34 {
                                    if b < 33 {
                                        ComObjectType::Byte26
                                    } else {
                                        ComObjectType::Byte27
                                    }
                                } else {
                                    if b < 35 {
                                        ComObjectType::Byte28
                                    } else {
                                        ComObjectType::Byte29
                                    }
                                }
                            } else {
                                if b < 38 {
                                    if b < 37 {
                                        ComObjectType::Byte30
                                    } else {
                                        ComObjectType::Byte31
                                    }
                                } else {
                                    if b < 39 {
                                        ComObjectType::Byte32
                                    } else {
                                        ComObjectType::Byte33
                                    }
                                }
                            }
                        } else {
                            if b < 44 {
                                if b < 42 {
                                    if b < 41 {
                                        ComObjectType::Byte34
                                    } else {
                                        ComObjectType::Byte35
                                    }
                                } else {
                                    if b < 43 {
                                        ComObjectType::Byte36
                                    } else {
                                        ComObjectType::Byte37
                                    }
                                }
                            } else {
                                if b < 46 {
                                    if b < 45 {
                                        ComObjectType::Byte38
                                    } else {
                                        ComObjectType::Byte39
                                    }
                                } else {
                                    if b < 47 {
                                        ComObjectType::Byte40
                                    } else {
                                        ComObjectType::Byte41
                                    }
                                }
                            }
                        }
                    } else {
                        if b < 56 {
                            if b < 52 {
                                if b < 50 {
                                    if b < 49 {
                                        ComObjectType::Byte42
                                    } else {
                                        ComObjectType::Byte43
                                    }
                                } else {
                                    if b < 51 {
                                        ComObjectType::Byte44
                                    } else {
                                        ComObjectType::Byte45
                                    }
                                }
                            } else {
                                if b < 54 {
                                    if b < 53 {
                                        ComObjectType::Byte46
                                    } else {
                                        ComObjectType::Byte47
                                    }
                                } else {
                                    if b < 55 {
                                        ComObjectType::Byte48
                                    } else {
                                        ComObjectType::Byte49
                                    }
                                }
                            }
                        } else {
                            if b < 60 {
                                if b < 58 {
                                    if b < 57 {
                                        ComObjectType::Byte50
                                    } else {
                                        ComObjectType::Byte51
                                    }
                                } else {
                                    if b < 59 {
                                        ComObjectType::Byte52
                                    } else {
                                        ComObjectType::Byte53
                                    }
                                }
                            } else {
                                if b < 62 {
                                    if b < 61 {
                                        ComObjectType::Byte54
                                    } else {
                                        ComObjectType::Byte55
                                    }
                                } else {
                                    if b < 63 {
                                        ComObjectType::Byte56
                                    } else {
                                        ComObjectType::Byte57
                                    }
                                }
                            }
                        }
                    }
                }
            } else {
                if b < 96 {
                    if b < 80 {
                        if b < 72 {
                            if b < 68 {
                                if b < 66 {
                                    if b < 65 {
                                        ComObjectType::Byte58
                                    } else {
                                        ComObjectType::Byte59
                                    }
                                } else {
                                    if b < 67 {
                                        ComObjectType::Byte60
                                    } else {
                                        ComObjectType::Byte61
                                    }
                                }
                            } else {
                                if b < 70 {
                                    if b < 69 {
                                        ComObjectType::Byte62
                                    } else {
                                        ComObjectType::Byte63
                                    }
                                } else {
                                    if b < 71 {
                                        ComObjectType::Byte64
                                    } else {
                                        ComObjectType::Byte65
                                    }
                                }
                            }
                        } else {
                            if b < 76 {
                                if b < 74 {
                                    if b < 73 {
                                        ComObjectType::Byte66
                                    } else {
                                        ComObjectType::Byte67
                                    }
                                } else {
                                    if b < 75 {
                                        ComObjectType::Byte68
                                    } else {
                                        ComObjectType::Byte69
                                    }
                                }
                            } else {
                                if b < 78 {
                                    if b < 77 {
                                        ComObjectType::Byte70
                                    } else {
                                        ComObjectType::Byte71
                                    }
                                } else {
                                    if b < 79 {
                                        ComObjectType::Byte72
                                    } else {
                                        ComObjectType::Byte73
                                    }
                                }
                            }
                        }
                    } else {
                        if b < 88 {
                            if b < 84 {
                                if b < 82 {
                                    if b < 81 {
                                        ComObjectType::Byte74
                                    } else {
                                        ComObjectType::Byte75
                                    }
                                } else {
                                    if b < 83 {
                                        ComObjectType::Byte76
                                    } else {
                                        ComObjectType::Byte77
                                    }
                                }
                            } else {
                                if b < 86 {
                                    if b < 85 {
                                        ComObjectType::Byte78
                                    } else {
                                        ComObjectType::Byte79
                                    }
                                } else {
                                    if b < 87 {
                                        ComObjectType::Byte80
                                    } else {
                                        ComObjectType::Byte81
                                    }
                                }
                            }
                        } else {
                            if b < 92 {
                                if b < 90 {
                                    if b < 89 {
                                        ComObjectType::Byte82
                                    } else {
                                        ComObjectType::Byte83
                                    }
                                } else {
                                    if b < 91 {
                                        ComObjectType::Byte84
                                    } else {
                                        ComObjectType::Byte85
                                    }
                                }
                            } else {
                                if b < 94 {
                                    if b < 93 {
                                        ComObjectType::Byte86
                                    } else {
                                        ComObjectType::Byte87
                                    }
                                } else {
                                    if b < 95 {
                                        ComObjectType::Byte88
                                    } else {
                                        ComObjectType::Byte89
                                    }
                                }
                            }
                        }
                    }
                } else {
                    if b < 112 {
                        if b < 104 {
                            if b < 100 {
                                if b < 98 {
                                    if b < 97 {
                                        ComObjectType::Byte90
                                    } else {
                                        ComObjectType::Byte91
                                    }
                                } else {
                                    if b < 99 {
                                        ComObjectType::Byte92
                                    } else {
                                        ComObjectType::Byte93
                                    }
                                }
                            } else {
                                if b < 102 {
                                    if b < 101 {
                                        ComObjectType::Byte94
                                    } else {
                                        ComObjectType::Byte95
                                    }
                                } else {
                                    if b < 103 {
                                        ComObjectType::Byte96
                                    } else {
                                        ComObjectType::Byte97
                                    }
                                }
                            }
                        } else {
                            if b < 108 {
                                if b < 106 {
                                    if b < 105 {
                                        ComObjectType::Byte98
                                    } else {
                                        ComObjectType::Byte99
                                    }
                                } else {
                                    if b < 107 {
                                        ComObjectType::Byte100
                                    } else {
                                        ComObjectType::Byte101
                                    }
                                }
                            } else {
                                if b < 110 {
                                    if b < 109 {
                                        ComObjectType::Byte102
                                    } else {
                                        ComObjectType::Byte103
                                    }
                                } else {
                                    if b < 111 {
                                        ComObjectType::Byte104
                                    } else {
                                        ComObjectType::Byte105
                                    }
                                }
                            }
                        }
                    } else {
                        if b < 120 {
                            if b < 116 {
                                if b < 114 {
                                    if b < 113 {
                                        ComObjectType::Byte106
                                    } else {
                                        ComObjectType::Byte107
                                    }
                                } else {
                                    if b < 115 {
                                        ComObjectType::Byte108
                                    } else {
                                        ComObjectType::Byte109
                                    }
                                }
                            } else {
                                if b < 118 {
                                    if b < 117 {
                                        ComObjectType::Byte110
                                    } else {
                                        ComObjectType::Byte111
                                    }
                                } else {
                                    if b < 119 {
                                        ComObjectType::Byte112
                                    } else {
                                        ComObjectType::Byte113
                                    }
                                }
                            }
                        } else {
                            if b < 124 {
                                if b < 122 {
                                    if b < 121 {
                                        ComObjectType::Byte114
                                    } else {
                                        ComObjectType::Byte115
                                    }
                                } else {
                                    if b < 123 {
                                        ComObjectType::Byte116
                                    } else {
                                        ComObjectType::Byte117
                                    }
                                }
                            } else {
                                if b < 126 {
                                    if b < 125 {
                                        ComObjectType::Byte118
                                    } else {
                                        ComObjectType::Byte119
                                    }
                                } else {
                                    if b < 127 {
                                        ComObjectType::Byte120
                                    } else {
                                        ComObjectType::Byte121
                                    }
                                }
                            }
                        }
                    }
                }
            }
        } else {
            if b < 192 {
                if b < 160 {
                    if b < 144 {
                        if b < 136 {
                            if b < 132 {
                                if b < 130 {
                                    if b < 129 {
                                        ComObjectType::Byte122
                                    } else {
                                        ComObjectType::Byte123
                                    }
                                } else {
                                    if b < 131 {
                                        ComObjectType::Byte124
                                    } else {
                                        ComObjectType::Byte125
                                    }
                                }
                            } else {
                                if b < 134 {
                                    if b < 133 {
                                        ComObjectType::Byte126
                                    } else {
                                        ComObjectType::Byte127
                                    }
                                } else {
                                    if b < 135 {
                                        ComObjectType::Byte128
                                    } else {
                                        ComObjectType::Byte129
                                    }
                                }
                            }
                        } else {
                            if b < 140 {
                                if b < 138 {
                                    if b < 137 {
                                        ComObjectType::Byte130
                                    } else {
                                        ComObjectType::Byte131
                                    }
                                } else {
                                    if b < 139 {
                                        ComObjectType::Byte132
                                    } else {
                                        ComObjectType::Byte133
                                    }
                                }
                            } else {
                                if b < 142 {
                                    if b < 141 {
                                        ComObjectType::Byte134
                                    } else {
                                        ComObjectType::Byte135
                                    }
                                } else {
                                    if b < 143 {
                                        ComObjectType::Byte136
                                    } else {
                                        ComObjectType::Byte137
                                    }
                                }
                            }
                        }
                    } else {
                        if b < 152 {
                            if b < 148 {
                                if b < 146 {
                                    if b < 145 {
                                        ComObjectType::Byte138
                                    } else {
                                        ComObjectType::Byte139
                                    }
                                } else {
                                    if b < 147 {
                                        ComObjectType::Byte140
                                    } else {
                                        ComObjectType::Byte141
                                    }
                                }
                            } else {
                                if b < 150 {
                                    if b < 149 {
                                        ComObjectType::Byte142
                                    } else {
                                        ComObjectType::Byte143
                                    }
                                } else {
                                    if b < 151 {
                                        ComObjectType::Byte144
                                    } else {
                                        ComObjectType::Byte145
                                    }
                                }
                            }
                        } else {
                            if b < 156 {
                                if b < 154 {
                                    if b < 153 {
                                        ComObjectType::Byte146
                                    } else {
                                        ComObjectType::Byte147
                                    }
                                } else {
                                    if b < 155 {
                                        ComObjectType::Byte148
                                    } else {
                                        ComObjectType::Byte149
                                    }
                                }
                            } else {
                                if b < 158 {
                                    if b < 157 {
                                        ComObjectType::Byte150
                                    } else {
                                        ComObjectType::Byte151
                                    }
                                } else {
                                    if b < 159 {
                                        ComObjectType::Byte152
                                    } else {
                                        ComObjectType::Byte153
                                    }
                                }
                            }
                        }
                    }
                } else {
                    if b < 176 {
                        if b < 168 {
                            if b < 164 {
                                if b < 162 {
                                    if b < 161 {
                                        ComObjectType::Byte154
                                    } else {
                                        ComObjectType::Byte155
                                    }
                                } else {
                                    if b < 163 {
                                        ComObjectType::Byte156
                                    } else {
                                        ComObjectType::Byte157
                                    }
                                }
                            } else {
                                if b < 166 {
                                    if b < 165 {
                                        ComObjectType::Byte158
                                    } else {
                                        ComObjectType::Byte159
                                    }
                                } else {
                                    if b < 167 {
                                        ComObjectType::Byte160
                                    } else {
                                        ComObjectType::Byte161
                                    }
                                }
                            }
                        } else {
                            if b < 172 {
                                if b < 170 {
                                    if b < 169 {
                                        ComObjectType::Byte162
                                    } else {
                                        ComObjectType::Byte163
                                    }
                                } else {
                                    if b < 171 {
                                        ComObjectType::Byte164
                                    } else {
                                        ComObjectType::Byte165
                                    }
                                }
                            } else {
                                if b < 174 {
                                    if b < 173 {
                                        ComObjectType::Byte166
                                    } else {
                                        ComObjectType::Byte167
                                    }
                                } else {
                                    if b < 175 {
                                        ComObjectType::Byte168
                                    } else {
                                        ComObjectType::Byte169
                                    }
                                }
                            }
                        }
                    } else {
                        if b < 184 {
                            if b < 180 {
                                if b < 178 {
                                    if b < 177 {
                                        ComObjectType::Byte170
                                    } else {
                                        ComObjectType::Byte171
                                    }
                                } else {
                                    if b < 179 {
                                        ComObjectType::Byte172
                                    } else {
                                        ComObjectType::Byte173
                                    }
                                }
                            } else {
                                if b < 182 {
                                    if b < 181 {
                                        ComObjectType::Byte174
                                    } else {
                                        ComObjectType::Byte175
                                    }
                                } else {
                                    if b < 183 {
                                        ComObjectType::Byte176
                                    } else {
                                        ComObjectType::Byte177
                                    }
                                }
                            }
                        } else {
                            if b < 188 {
                                if b < 186 {
                                    if b < 185 {
                                        ComObjectType::Byte178
                                    } else {
                                        ComObjectType::Byte179
                                    }
                                } else {
                                    if b < 187 {
                                        ComObjectType::Byte180
                                    } else {
                                        ComObjectType::Byte181
                                    }
                                }
                            } else {
                                if b < 190 {
                                    if b < 189 {
                                        ComObjectType::Byte182
                                    } else {
                                        ComObjectType::Byte183
                                    }
                                } else {
                                    if b < 191 {
                                        ComObjectType::Byte184
                                    } else {
                                        ComObjectType::Byte185
                                    }
                                }
                            }
                        }
                    }
                }
            } else {
                if b < 224 {
                    if b < 208 {
                        if b < 200 {
                            if b < 196 {
                                if b < 194 {
                                    if b < 193 {
                                        ComObjectType::Byte186
                                    } else {
                                        ComObjectType::Byte187
                                    }
                                } else {
                                    if b < 195 {
                                        ComObjectType::Byte188
                                    } else {
                                        ComObjectType::Byte189
                                    }
                                }
                            } else {
                                if b < 198 {
                                    if b < 197 {
                                        ComObjectType::Byte190
                                    } else {
                                        ComObjectType::Byte191
                                    }
                                } else {
                                    if b < 199 {
                                        ComObjectType::Byte192
                                    } else {
                                        ComObjectType::Byte193
                                    }
                                }
                            }
                        } else {
                            if b < 204 {
                                if b < 202 {
                                    if b < 201 {
                                        ComObjectType::Byte194
                                    } else {
                                        ComObjectType::Byte195
                                    }
                                } else {
                                    if b < 203 {
                                        ComObjectType::Byte196
                                    } else {
                                        ComObjectType::Byte197
                                    }
                                }
                            } else {
                                if b < 206 {
                                    if b < 205 {
                                        ComObjectType::Byte198
                                    } else {
                                        ComObjectType::Byte199
                                    }
                                } else {
                                    if b < 207 {
                                        ComObjectType::Byte200
                                    } else {
                                        ComObjectType::Byte201
                                    }
                                }
                            }
                        }
                    } else {
                        if b < 216 {
                            if b < 212 {
                                if b < 210 {
                                    if b < 209 {
                                        ComObjectType::Byte202
                                    } else {
                                        ComObjectType::Byte203
                                    }
                                } else {
                                    if b < 211 {
                                        ComObjectType::Byte204
                                    } else {
                                        ComObjectType::Byte205
                                    }
                                }
                            } else {
                                if b < 214 {
                                    if b < 213 {
                                        ComObjectType::Byte206
                                    } else {
                                        ComObjectType::Byte207
                                    }
                                } else {
                                    if b < 215 {
                                        ComObjectType::Byte208
                                    } else {
                                        ComObjectType::Byte209
                                    }
                                }
                            }
                        } else {
                            if b < 220 {
                                if b < 218 {
                                    if b < 217 {
                                        ComObjectType::Byte210
                                    } else {
                                        ComObjectType::Byte211
                                    }
                                } else {
                                    if b < 219 {
                                        ComObjectType::Byte212
                                    } else {
                                        ComObjectType::Byte213
                                    }
                                }
                            } else {
                                if b < 222 {
                                    if b < 221 {
                                        ComObjectType::Byte214
                                    } else {
                                        ComObjectType::Byte215
                                    }
                                } else {
                                    if b < 223 {
                                        ComObjectType::Byte216
                                    } else {
                                        ComObjectType::Byte217
                                    }
                                }
                            }
                        }
                    }
                } else {
                    if b < 240 {
                        if b < 232 {
                            if b < 228 {
                                if b < 226 {
                                    if b < 225 {
                                        ComObjectType::Byte218
                                    } else {
                                        ComObjectType::Byte219
                                    }
                                } else {
                                    if b < 227 {
                                        ComObjectType::Byte220
                                    } else {
                                        ComObjectType::Byte221
                                    }
                                }
                            } else {
                                if b < 230 {
                                    if b < 229 {
                                        ComObjectType::Byte222
                                    } else {
                                        ComObjectType::Byte223
                                    }
                                } else {
                                    if b < 231 {
                                        ComObjectType::Byte224
                                    } else {
                                        ComObjectType::Byte225
                                    }
                                }
                            }
                        } else {
                            if b < 236 {
                                if b < 234 {
                                    if b < 233 {
                                        ComObjectType::Byte226
                                    } else {
                                        ComObjectType::Byte227
                                    }
                                } else {
                                    if b < 235 {
                                        ComObjectType::Byte228
                                    } else {
                                        ComObjectType::Byte229
                                    }
                                }
                            } else {
                                if b < 238 {
                                    if b < 237 {
                                        ComObjectType::Byte230
                                    } else {
                                        ComObjectType::Byte231
                                    }
                                } else {
                                    if b < 239 {
                                        ComObjectType::Byte232
                                    } else {
                                        ComObjectType::Byte233
                                    }
                                }
                            }
                        }
                    } else {
                        if b < 248 {
                            if b < 244 {
                                if b < 242 {
                                    if b < 241 {
                                        ComObjectType::Byte234
                                    } else {
                                        ComObjectType::Byte235
                                    }
                                } else {
                                    if b < 243 {
                                        ComObjectType::Byte236
                                    } else {
                                        ComObjectType::Byte237
                                    }
                                }
                            } else {
                                if b < 246 {
                                    if b < 245 {
                                        ComObjectType::Byte238
                                    } else {
                                        ComObjectType::Byte239
                                    }
                                } else {
                                    if b < 247 {
                                        ComObjectType::Byte240
                                    } else {
                                        ComObjectType::Byte241
                                    }
                                }
                            }
                        } else {
                            if b < 252 {
                                if b < 250 {
                                    if b < 249 {
                                        ComObjectType::Byte242
                                    } else {
                                        ComObjectType::Byte243
                                    }
                                } else {
                                    if b < 251 {
                                        ComObjectType::Byte244
                                    } else {
                                        ComObjectType::Byte245
                                    }
                                }
                            } else {
                                if b < 254 {
                                    if b < 253 {
                                        ComObjectType::Byte246
                                    } else {
                                        ComObjectType::Byte247
                                    }
                                } else {
                                    if b < 255 {
                                        ComObjectType::Byte248
                                    } else {
                                        ComObjectType::Byte252
                                    }
                                }
                            }
                        }
                    }
                }
            }
        }
    }

    /// The octet that encodes this type.
    pub fn to_byte(self) -> (r: u8)
        ensures
            r == self.code(),
    {
        match self {
            ComObjectType::Uint1 => 0,
            ComObjectType::Uint2 => 1,
            ComObjectType::Uint3 => 2,
            ComObjectType::Uint4 => 3,
            ComObjectType::Uint5 => 4,
            ComObjectType::Uint6 => 5,
            ComObjectType::Uint7 => 6,
            ComObjectType::Byte1 => 7,
            ComObjectType::Byte2 => 8,
            ComObjectType::Byte3 => 9,
            ComObjectType::Byte4 => 10,
            ComObjectType::Byte6 => 11,
            ComObjectType::Byte8 => 12,
            ComObjectType::Byte10 => 13,
            ComObjectType::Byte14 => 14,
            ComObjectType::Byte5 => 15,
            ComObjectType::Byte7 => 16,
            ComObjectType::Byte9 => 17,
            ComObjectType::Byte11 => 18,
            ComObjectType::Byte12 => 19,
            ComObjectType::Byte13 => 20,
            ComObjectType::Byte15 => 21,
            ComObjectType::Byte16 => 22,
            ComObjectType::Byte17 => 23,
            ComObjectType::Byte18 => 24,
            ComObjectType::Byte19 => 25,
            ComObjectType::Byte20 => 26,
            ComObjectType::Byte21 => 27,
            ComObjectType::Byte22 => 28,
            ComObjectType::Byte23 => 29,
            ComObjectType::Byte24 => 30,
            ComObjectType::Byte25 => 31,
            ComObjectType::Byte26 => 32,
            ComObjectType::Byte27 => 33,
            ComObjectType::Byte28 => 34,
            ComObjectType::Byte29 => 35,
            ComObjectType::Byte30 => 36,
            ComObjectType::Byte31 => 37,
            ComObjectType::Byte32 => 38,
            ComObjectType::Byte33 => 39,
            ComObjectType::Byte34 => 40,
            ComObjectType::Byte35 => 41,
            ComObjectType::Byte36 => 42,
            ComObjectType::Byte37 => 43,
            ComObjectType::Byte38 => 44,
            ComObjectType::Byte39 => 45,
            ComObjectType::Byte40 => 46,
            ComObjectType::Byte41 => 47,
            ComObjectType::Byte42 => 48,
            ComObjectType::Byte43 => 49,
            ComObjectType::Byte44 => 50,
            ComObjectType::Byte45 => 51,
            ComObjectType::Byte46 => 52,
            ComObjectType::Byte47 => 53,
            ComObjectType::Byte48 => 54,
            ComObjectType::Byte49 => 55,
            ComObjectType::Byte50 => 56,
            ComObjectType::Byte51 => 57,
            ComObjectType::Byte52 => 58,
            ComObjectType::Byte53 => 59,
            ComObjectType::Byte54 => 60,
            ComObjectType::Byte55 => 61,
            ComObjectType::Byte56 => 62,
            ComObjectType::Byte57 => 63,
            ComObjectType::Byte58 => 64,
            ComObjectType::Byte59 => 65,
            ComObjectType::Byte60 => 66,
            ComObjectType::Byte61 => 67,
            ComObjectType::Byte62 => 68,
            ComObjectType::Byte63 => 69,
            ComObjectType::Byte64 => 70,
            ComObjectType::Byte65 => 71,
            ComObjectType::Byte66 => 72,
            ComObjectType::Byte67 => 73,
            ComObjectType::Byte68 => 74,
            ComObjectType::Byte69 => 75,
            ComObjectType::Byte70 => 76,
            ComObjectType::Byte71 => 77,
            ComObjectType::Byte72 => 78,
            ComObjectType::Byte73 => 79,
            ComObjectType::Byte74 => 80,
            ComObjectType::Byte75 => 81,
            ComObjectType::Byte76 => 82,
            ComObjectType::Byte77 => 83,
            ComObjectType::Byte78 => 84,
            ComObjectType::Byte79 => 85,
            ComObjectType::Byte80 => 86,
            ComObjectType::Byte81 => 87,
            ComObjectType::Byte82 => 88,
            ComObjectType::Byte83 => 89,
            ComObjectType::Byte84 => 90,
            ComObjectType::Byte85 => 91,
            ComObjectType::Byte86 => 92,
            ComObjectType::Byte87 => 93,
            ComObjectType::Byte88 => 94,
            ComObjectType::Byte89 => 95,
            ComObjectType::Byte90 => 96,
            ComObjectType::Byte91 => 97,
            ComObjectType::Byte92 => 98,
            ComObjectType::Byte93 => 99,
            ComObjectType::Byte94 => 100,
            ComObjectType::Byte95 => 101,
            ComObjectType::Byte96 => 102,
            ComObjectType::Byte97 => 103,
            ComObjectType::Byte98 => 104,
            ComObjectType::Byte99 => 105,
            ComObjectType::Byte100 => 106,
            ComObjectType::Byte101 => 107,
            ComObjectType::Byte102 => 108,
            ComObjectType::Byte103 => 109,
            ComObjectType::Byte104 => 110,
            ComObjectType::Byte105 => 111,
            ComObjectType::Byte106 => 112,
            ComObjectType::Byte107 => 113,
            ComObjectType::Byte108 => 114,
            ComObjectType::Byte109 => 115,
            ComObjectType::Byte110 => 116,
            ComObjectType::Byte111 => 117,
            ComObjectType::Byte112 => 118,
            ComObjectType::Byte113 => 119,
            ComObjectType::Byte114 => 120,
            ComObjectType::Byte115 => 121,
            ComObjectType::Byte116 => 122,
            ComObjectType::Byte117 => 123,
            ComObjectType::Byte118 => 124,
            ComObjectType::Byte119 => 125,
            ComObjectType::Byte120 => 126,
            ComObjectType::Byte121 => 127,
            ComObjectType::Byte122 => 128,
            ComObjectType::Byte123 => 129,
            ComObjectType::Byte124 => 130,
            ComObjectType::Byte125 => 131,
            ComObjectType::Byte126 => 132,
            ComObjectType::Byte127 => 133,
            ComObjectType::Byte128 => 134,
            ComObjectType::Byte129 => 135,
            ComObjectType::Byte130 => 136,
            ComObjectType::Byte131 => 137,
            ComObjectType::Byte132 => 138,
            ComObjectType::Byte133 => 139,
            ComObjectType::Byte134 => 140,
            ComObjectType::Byte135 => 141,
            ComObjectType::Byte136 => 142,
            ComObjectType::Byte137 => 143,
            ComObjectType::Byte138 => 144,
            ComObjectType::Byte139 => 145,
            ComObjectType::Byte140 => 146,
            ComObjectType::Byte141 => 147,
            ComObjectType::Byte142 => 148,
            ComObjectType::Byte143 => 149,
            ComObjectType::Byte144 => 150,
            ComObjectType::Byte145 => 151,
            ComObjectType::Byte146 => 152,
            ComObjectType::Byte147 => 153,
            ComObjectType::Byte148 => 154,
            ComObjectType::Byte149 => 155,
            ComObjectType::Byte150 => 156,
            ComObjectType::Byte151 => 157,
            ComObjectType::Byte152 => 158,
            ComObjectType::Byte153 => 159,
            ComObjectType::Byte154 => 160,
            ComObjectType::Byte155 => 161,
            ComObjectType::Byte156 => 162,
            ComObjectType::Byte157 => 163,
            ComObjectType::Byte158 => 164,
            ComObjectType::Byte159 => 165,
            ComObjectType::Byte160 => 166,
            ComObjectType::Byte161 => 167,
            ComObjectType::Byte162 => 168,
            ComObjectType::Byte163 => 169,
            ComObjectType::Byte164 => 170,
            ComObjectType::Byte165 => 171,
            ComObjectType::Byte166 => 172,
            ComObjectType::Byte167 => 173,
            ComObjectType::Byte168 => 174,
            ComObjectType::Byte169 => 175,
            ComObjectType::Byte170 => 176,
            ComObjectType::Byte171 => 177,
            ComObjectType::Byte172 => 178,
            ComObjectType::Byte173 => 179,
            ComObjectType::Byte174 => 180,
            ComObjectType::Byte175 => 181,
            ComObjectType::Byte176 => 182,
            ComObjectType::Byte177 => 183,
            ComObjectType::Byte178 => 184,
            ComObjectType::Byte179 => 185,
            ComObjectType::Byte180 => 186,
            ComObjectType::Byte181 => 187,
            ComObjectType::Byte182 => 188,
            ComObjectType::Byte183 => 189,
            ComObjectType::Byte184 => 190,
            ComObjectType::Byte185 => 191,
            ComObjectType::Byte186 => 192,
            ComObjectType::Byte187 => 193,
            ComObjectType::Byte188 => 194,
            ComObjectType::Byte189 => 195,
            ComObjectType::Byte190 => 196,
            ComObjectType::Byte191 => 197,
            ComObjectType::Byte192 => 198,
            ComObjectType::Byte193 => 199,
            ComObjectType::Byte194 => 200,
            ComObjectType::Byte195 => 201,
            ComObjectType::Byte196 => 202,
            ComObjectType::Byte197 => 203,
            ComObjectType::Byte198 => 204,
            ComObjectType::Byte199 => 205,
            ComObjectType::Byte200 => 206,
            ComObjectType::Byte201 => 207,
            ComObjectType::Byte202 => 208,
            ComObjectType::Byte203 => 209,
            ComObjectType::Byte204 => 210,
            ComObjectType::Byte205 => 211,
            ComObjectType::Byte206 => 212,
            ComObjectType::Byte207 => 213,
            ComObjectType::Byte208 => 214,
            ComObjectType::Byte209 => 215,
            ComObjectType::Byte210 => 216,
            ComObjectType::Byte211 => 217,
            ComObjectType::Byte212 => 218,
            ComObjectType::Byte213 => 219,
            ComObjectType::Byte214 => 220,
            ComObjectType::Byte215 => 221,
            ComObjectType::Byte216 => 222,
            ComObjectType::Byte217 => 223,
            ComObjectType::Byte218 => 224,
            ComObjectType::Byte219 => 225,
            ComObjectType::Byte220 => 226,
            ComObjectType::Byte221 => 227,
            ComObjectType::Byte222 => 228,
            ComObjectType::Byte223 => 229,
            ComObjectType::Byte224 => 230,
            ComObjectType::Byte225 => 231,
            ComObjectType::Byte226 => 232,
            ComObjectType::Byte227 => 233,
            ComObjectType::Byte228 => 234,
            ComObjectType::Byte229 => 235,
            ComObjectType::Byte230 => 236,
            ComObjectType::Byte231 => 237,
            ComObjectType::Byte232 => 238,
            ComObjectType::Byte233 => 239,
            ComObjectType::Byte234 => 240,
            ComObjectType::Byte235 => 241,
            ComObjectType::Byte236 => 242,
            ComObjectType::Byte237 => 243,
            ComObjectType::Byte238 => 244,
            ComObjectType::Byte239 => 245,
            ComObjectType::Byte240 => 246,
            ComObjectType::Byte241 => 247,
            ComObjectType::Byte242 => 248,
            ComObjectType::Byte243 => 249,
            ComObjectType::Byte244 => 250,
            ComObjectType::Byte245 => 251,
            ComObjectType::Byte246 => 252,
            ComObjectType::Byte247 => 253,
            ComObjectType::Byte248 => 254,
            ComObjectType::Byte252 => 255,
        }
    }

    /// The type an octet encodes.
    #[verifier::rlimit(100)]
    #[verifier::spinoff_prover]
    pub fn from_byte(b: u8) -> (r: ComObjectType)
        ensures
            r == ComObjectType::decode(b),
            r.code() == b,
    {
        if b < 128 {
            if b < 64 {
                if b < 32 {
                    if b < 16 {
                        if b < 8 {
                            if b < 4 {
                                if b < 2 {
                                    if b < 1 {
                                        ComObjectType::Uint1
                                    } else {
                                        ComObjectType::Uint2
                                    }
                                } else {
                                    if b < 3 {
                                        ComObjectType::Uint3
                                    } else {
                                        ComObjectType::Uint4
                                    }
                                }
                            } else {
                                if b < 6 {
                                    if b < 5 {
                                        ComObjectType::Uint5
                                    } else {
                                        ComObjectType::Uint6
                                    }
                                } else {
                                    if b < 7 {
                                        ComObjectType::Uint7
                                    } else {
                                        ComObjectType::Byte1
                                    }
                                }
                            }
                        } else {
                            if b < 12 {
                                if b < 10 {
                                    if b < 9 {
                                        ComObjectType::Byte2
                                    } else {
                                        ComObjectType::Byte3
                                    }
                                } else {
                                    if b < 11 {
                                        ComObjectType::Byte4
                                    } else {
                                        ComObjectType::Byte6
                                    }
                                }
                            } else {
                                if b < 14 {
                                    if b < 13 {
                                        ComObjectType::Byte8
                                    } else {
                                        ComObjectType::Byte10
                                    }
                                } else {
                                    if b < 15 {
                                        ComObjectType::Byte14
                                    } else {
                                        ComObjectType::Byte5
                                    }
                                }
                            }
                        }
                    } else {
                        if b < 24 {
                            if b < 20 {
                                if b < 18 {
                                    if b < 17 {
                                        ComObjectType::Byte7
                                    } else {
                                        ComObjectType::Byte9
                                    }
                                } else {
                                    if b < 19 {
                                        ComObjectType::Byte11
                                    } else {
                                        ComObjectType::Byte12
                                    }
                                }
                            } else {
                                if b < 22 {
                                    if b < 21 {
                                        ComObjectType::Byte13
                                    } else {
                                        ComObjectType::Byte15
                                    }
                                } else {
                                    if b < 23 {
                                        ComObjectType::Byte16
                                    } else {
                                        ComObjectType::Byte17
                                    }
                                }
                            }
                        } else {
                            if b < 28 {
                                if b < 26 {
                                    if b < 25 {
                                        ComObjectType::Byte18
                                    } else {
                                        ComObjectType::Byte19
                                    }
                                } else {
                                    if b < 27 {
                                        ComObjectType::Byte20
                                    } else {
                                        ComObjectType::Byte21
                                    }
                                }
                            } else {
                                if b < 30 {
                                    if b < 29 {
                                        ComObjectType::Byte22
                                    } else {
                                        ComObjectType::Byte23
                                    }
                                } else {
                                    if b < 31 {
                                        ComObjectType::Byte24
                                    } else {
                                        ComObjectType::Byte25
                                    }
                                }
                            }
                        }
                    }
                } else {
                    if b < 48 {
                        if b < 40 {
                            if b < 36 {
                                if b < 34 {
                                    if b < 33 {
                                        ComObjectType::Byte26
                                    } else {
                                        ComObjectType::Byte27
                                    }
                                } else {
                                    if b < 35 {
                                        ComObjectType::Byte28
                                    } else {
                                        ComObjectType::Byte29
                                    }
                                }
                            } else {
                                if b < 38 {
                                    if b < 37 {
                                        ComObjectType::Byte30
                                    } else {
                                        ComObjectType::Byte31
                                    }
                                } else {
                                    if b < 39 {
                                        ComObjectType::Byte32
                                    } else {
                                        ComObjectType::Byte33
                                    }
                                }
                            }
                        } else {
                            if b < 44 {
                                if b < 42 {
                                    if b < 41 {
                                        ComObjectType::Byte34
                                    } else {
                                        ComObjectType::Byte35
                                    }
                                } else {
                                    if b < 43 {
                                        ComObjectType::Byte36
                                    } else {
                                        ComObjectType::Byte37
                                    }
                                }
                            } else {
                                if b < 46 {
                                    if b < 45 {
                                        ComObjectType::Byte38
                                    } else {
                                        ComObjectType::Byte39
                                    }
                                } else {
                                    if b < 47 {
                                        ComObjectType::Byte40
                                    } else {
                                        ComObjectType::Byte41
                                    }
                                }
                            }
                        }
                    } else {
                        if b < 56 {
                            if b < 52 {
                                if b < 50 {
                                    if b < 49 {
                                        ComObjectType::Byte42
                                    } else {
                                        ComObjectType::Byte43
                                    }
                                } else {
                                    if b < 51 {
                                        ComObjectType::Byte44
                                    } else {
                                        ComObjectType::Byte45
                                    }
                                }
                            } else {
                                if b < 54 {
                                    if b < 53 {
                                        ComObjectType::Byte46
                                    } else {
                                        ComObjectType::Byte47
                                    }
                                } else {
                                    if b < 55 {
                                        ComObjectType::Byte48
                                    } else {
                                        ComObjectType::Byte49
                                    }
                                }
                            }
                        } else {
                            if b < 60 {
                                if b < 58 {
                                    if b < 57 {
                                        ComObjectType::Byte50
                                    } else {
                                        ComObjectType::Byte51
                                    }
                                } else {
                                    if b < 59 {
                                        ComObjectType::Byte52
                                    } else {
                                        ComObjectType::Byte53
                                    }
                                }
                            } else {
                                if b < 62 {
                                    if b < 61 {
                                        ComObjectType::Byte54
                                    } else {
                                        ComObjectType::Byte55
                                    }
                                } else {
                                    if b < 63 {
                                        ComObjectType::Byte56
                                    } else {
                                        ComObjectType::Byte57
                                    }
                                }
                            }
                        }
                    }
                }
            } else {
                if b < 96 {
                    if b < 80 {
                        if b < 72 {
                            if b < 68 {
                                if b < 66 {
                                    if b < 65 {
                                        ComObjectType::Byte58
                                    } else {
                                        ComObjectType::Byte59
                                    }
                                } else {
                                    if b < 67 {
                                        ComObjectType::Byte60
                                    } else {
                                        ComObjectType::Byte61
                                    }
                                }
                            } else {
                                if b < 70 {
                                    if b < 69 {
                                        ComObjectType::Byte62
                                    } else {
                                        ComObjectType::Byte63
                                    }
                                } else {
                                    if b < 71 {
                                        ComObjectType::Byte64
                                    } else {
                                        ComObjectType::Byte65
                                    }
                                }
                            }
                        } else {
                            if b < 76 {
                                if b < 74 {
                                    if b < 73 {
                                        ComObjectType::Byte66
                                    } else {
                                        ComObjectType::Byte67
                                    }
                                } else {
                                    if b < 75 {
                                        ComObjectType::Byte68
                                    } else {
                                        ComObjectType::Byte69
                                    }
                                }
                            } else {
                                if b < 78 {
                                    if b < 77 {
                                        ComObjectType::Byte70
                                    } else {
                                        ComObjectType::Byte71
                                    }
                                } else {
                                    if b < 79 {
                                        ComObjectType::Byte72
                                    } else {
                                        ComObjectType::Byte73
                                    }
                                }
                            }
                        }
                    } else {
                        if b < 88 {
                            if b < 84 {
                                if b < 82 {
                                    if b < 81 {
                                        ComObjectType::Byte74
                                    } else {
                                        ComObjectType::Byte75
                                    }
                                } else {
                                    if b < 83 {
                                        ComObjectType::Byte76
                                    } else {
                                        ComObjectType::Byte77
                                    }
                                }
                            } else {
                                if b < 86 {
                                    if b < 85 {
                                        ComObjectType::Byte78
                                    } else {
                                        ComObjectType::Byte79
                                    }
                                } else {
                                    if b < 87 {
                                        ComObjectType::Byte80
                                    } else {
                                        ComObjectType::Byte81
                                    }
                                }
                            }
                        } else {
                            if b < 92 {
                                if b < 90 {
                                    if b < 89 {
                                        ComObjectType::Byte82
                                    } else {
                                        ComObjectType::Byte83
                                    }
                                } else {
                                    if b < 91 {
                                        ComObjectType::Byte84
                                    } else {
                                        ComObjectType::Byte85
                                    }
                                }
                            } else {
                                if b < 94 {
                                    if b < 93 {
                                        ComObjectType::Byte86
                                    } else {
                                        ComObjectType::Byte87
                                    }
                                } else {
                                    if b < 95 {
                                        ComObjectType::Byte88
                                    } else {
                                        ComObjectType::Byte89
                                    }
                                }
                            }
                        }
                    }
                } else {
                    if b < 112 {
                        if b < 104 {
                            if b < 100 {
                                if b < 98 {
                                    if b < 97 {
                                        ComObjectType::Byte90
                                    } else {
                                        ComObjectType::Byte91
                                    }
                                } else {
                                    if b < 99 {
                                        ComObjectType::Byte92
                                    } else {
                                        ComObjectType::Byte93
                                    }
                                }
                            } else {
                                if b < 102 {
                                    if b < 101 {
                                        ComObjectType::Byte94
                                    } else {
                                        ComObjectType::Byte95
                                    }
                                } else {
                                    if b < 103 {
                                        ComObjectType::Byte96
                                    } else {
                                        ComObjectType::Byte97
                                    }
                                }
                            }
                        } else {
                            if b < 108 {
                                if b < 106 {
                                    if b < 105 {
                                        ComObjectType::Byte98
                                    } else {
                                        ComObjectType::Byte99
                                    }
                                } else {
                                    if b < 107 {
                                        ComObjectType::Byte100
                                    } else {
                                        ComObjectType::Byte101
                                    }
                                }
                            } else {
                                if b < 110 {
                                    if b < 109 {
                                        ComObjectType::Byte102
                                    } else {
                                        ComObjectType::Byte103
                                    }
                                } else {
                                    if b < 111 {
                                        ComObjectType::Byte104
                                    } else {
                                        ComObjectType::Byte105
                                    }
                                }
                            }
                        }
                    } else {
                        if b < 120 {
                            if b < 116 {
                                if b < 114 {
                                    if b < 113 {
                                        ComObjectType::Byte106
                                    } else {
                                        ComObjectType::Byte107
                                    }
                                } else {
                                    if b < 115 {
                                        ComObjectType::Byte108
                                    } else {
                                        ComObjectType::Byte109
                                    }
                                }
                            } else {
                                if b < 118 {
                                    if b < 117 {
                                        ComObjectType::Byte110
                                    } else {
                                        ComObjectType::Byte111
                                    }
                                } else {
                                    if b < 119 {
                                        ComObjectType::Byte112
                                    } else {
                                        ComObjectType::Byte113
                                    }
                                }
                            }
                        } else {
                            if b < 124 {
                                if b < 122 {
                                    if b < 121 {
                                        ComObjectType::Byte114
                                    } else {
                                        ComObjectType::Byte115
                                    }
                                } else {
                                    if b < 123 {
                                        ComObjectType::Byte116
                                    } else {
                                        ComObjectType::Byte117
                                    }
                                }
                            } else {
                                if b < 126 {
                                    if b < 125 {
                                        ComObjectType::Byte118
                                    } else {
                                        ComObjectType::Byte119
                                    }
                                } else {
                                    if b < 127 {
                                        ComObjectType::Byte120
                                    } else {
                                        ComObjectType::Byte121
                                    }
                                }
                            }
                        }
                    }
                }
            }
        } else {
            if b < 192 {
                if b < 160 {
                    if b < 144 {
                        if b < 136 {
                            if b < 132 {
                                if b < 130 {
                                    if b < 129 {
                                        ComObjectType::Byte122
                                    } else {
                                        ComObjectType::Byte123
                                    }
                                } else {
                                    if b < 131 {
                                        ComObjectType::Byte124
                                    } else {
                                        ComObjectType::Byte125
                                    }
                                }
                            } else {
                                if b < 134 {
                                    if b < 133 {
                                        ComObjectType::Byte126
                                    } else {
                                        ComObjectType::Byte127
                                    }
                                } else {
                                    if b < 135 {
                                        ComObjectType::Byte128
                                    } else {
                                        ComObjectType::Byte129
                                    }
                                }
                            }
                        } else {
                            if b < 140 {
                                if b < 138 {
                                    if b < 137 {
                                        ComObjectType::Byte130
                                    } else {
                                        ComObjectType::Byte131
                                    }
                                } else {
                                    if b < 139 {
                                        ComObjectType::Byte132
                                    } else {
                                        ComObjectType::Byte133
                                    }
                                }
                            } else {
                                if b < 142 {
                                    if b < 141 {
                                        ComObjectType::Byte134
                                    } else {
                                        ComObjectType::Byte135
                                    }
                                } else {
                                    if b < 143 {
                                        ComObjectType::Byte136
                                    } else {
                                        ComObjectType::Byte137
                                    }
                                }
                            }
                        }
                    } else {
                        if b < 152 {
                            if b < 148 {
                                if b < 146 {
                                    if b < 145 {
                                        ComObjectType::Byte138
                                    } else {
                                        ComObjectType::Byte139
                                    }
                                } else {
                                    if b < 147 {
                                        ComObjectType::Byte140
                                    } else {
                                        ComObjectType::Byte141
                                    }
                                }
                            } else {
                                if b < 150 {
                                    if b < 149 {
                                        ComObjectType::Byte142
                                    } else {
                                        ComObjectType::Byte143
                                    }
                                } else {
                                    if b < 151 {
                                        ComObjectType::Byte144
                                    } else {
                                        ComObjectType::Byte145
                                    }
                                }
                            }
                        } else {
                            if b < 156 {
                                if b < 154 {
                                    if b < 153 {
                                        ComObjectType::Byte146
                                    } else {
                                        ComObjectType::Byte147
                                    }
                                } else {
                                    if b < 155 {
                                        ComObjectType::Byte148
                                    } else {
                                        ComObjectType::Byte149
                                    }
                                }
                            } else {
                                if b < 158 {
                                    if b < 157 {
                                        ComObjectType::Byte150
                                    } else {
                                        ComObjectType::Byte151
                                    }
                                } else {
                                    if b < 159 {
                                        ComObjectType::Byte152
                                    } else {
                                        ComObjectType::Byte153
                                    }
                                }
                            }
                        }
                    }
                } else {
                    if b < 176 {
                        if b < 168 {
                            if b < 164 {
                                if b < 162 {
                                    if b < 161 {
                                        ComObjectType::Byte154
                                    } else {
                                        ComObjectType::Byte155
                                    }
                                } else {
                                    if b < 163 {
                                        ComObjectType::Byte156
                                    } else {
                                        ComObjectType::Byte157
                                    }
                                }
                            } else {
                                if b < 166 {
                                    if b < 165 {
                                        ComObjectType::Byte158
                                    } else {
                                        ComObjectType::Byte159
                                    }
                                } else {
                                    if b < 167 {
                                        ComObjectType::Byte160
                                    } else {
                                        ComObjectType::Byte161
                                    }
                                }
                            }
                        } else {
                            if b < 172 {
                                if b < 170 {
                                    if b < 169 {
                                        ComObjectType::Byte162
                                    } else {
                                        ComObjectType::Byte163
                                    }
                                } else {
                                    if b < 171 {
                                        ComObjectType::Byte164
                                    } else {
                                        ComObjectType::Byte165
                                    }
                                }
                            } else {
                                if b < 174 {
                                    if b < 173 {
                                        ComObjectType::Byte166
                                    } else {
                                        ComObjectType::Byte167
                                    }
                                } else {
                                    if b < 175 {
                                        ComObjectType::Byte168
                                    } else {
                                        ComObjectType::Byte169
                                    }
                                }
                            }
                        }
                    } else {
                        if b < 184 {
                            if b < 180 {
                                if b < 178 {
                                    if b < 177 {
                                        ComObjectType::Byte170
                                    } else {
                                        ComObjectType::Byte171
                                    }
                                } else {
                                    if b < 179 {
                                        ComObjectType::Byte172
                                    } else {
                                        ComObjectType::Byte173
                                    }
                                }
                            } else {
                                if b < 182 {
                                    if b < 181 {
                                        ComObjectType::Byte174
                                    } else {
                                        ComObjectType::Byte175
                                    }
                                } else {
                                    if b < 183 {
                                        ComObjectType::Byte176
                                    } else {
                                        ComObjectType::Byte177
                                    }
                                }
                            }
                        } else {
                            if b < 188 {
                                if b < 186 {
                                    if b < 185 {
                                        ComObjectType::Byte178
                                    } else {
                                        ComObjectType::Byte179
                                    }
                                } else {
                                    if b < 187 {
                                        ComObjectType::Byte180
                                    } else {
                                        ComObjectType::Byte181
                                    }
                                }
                            } else {
                                if b < 190 {
                                    if b < 189 {
                                        ComObjectType::Byte182
                                    } else {
                                        ComObjectType::Byte183
                                    }
                                } else {
                                    if b < 191 {
                                        ComObjectType::Byte184
                                    } else {
                                        ComObjectType::Byte185
                                    }
                                }
                            }
                        }
                    }
                }
            } else {
                if b < 224 {
                    if b < 208 {
                        if b < 200 {
                            if b < 196 {
                                if b < 194 {
                                    if b < 193 {
                                        ComObjectType::Byte186
                                    } else {
                                        ComObjectType::Byte187
                                    }
                                } else {
                                    if b < 195 {
                                        ComObjectType::Byte188
                                    } else {
                                        ComObjectType::Byte189
                                    }
                                }
                            } else {
                                if b < 198 {
                                    if b < 197 {
                                        ComObjectType::Byte190
                                    } else {
                                        ComObjectType::Byte191
                                    }
                                } else {
                                    if b < 199 {
                                        ComObjectType::Byte192
                                    } else {
                                        ComObjectType::Byte193
                                    }
                                }
                            }
                        } else {
                            if b < 204 {
                                if b < 202 {
                                    if b < 201 {
                                        ComObjectType::Byte194
                                    } else {
                                        ComObjectType::Byte195
                                    }
                                } else {
                                    if b < 203 {
                                        ComObjectType::Byte196
                                    } else {
                                        ComObjectType::Byte197
                                    }
                                }
                            } else {
                                if b < 206 {
                                    if b < 205 {
                                        ComObjectType::Byte198
                                    } else {
                                        ComObjectType::Byte199
                                    }
                                } else {
                                    if b < 207 {
                                        ComObjectType::Byte200
                                    } else {
                                        ComObjectType::Byte201
                                    }
                                }
                            }
                        }
                    } else {
                        if b < 216 {
                            if b < 212 {
                                if b < 210 {
                                    if b < 209 {
                                        ComObjectType::Byte202
                                    } else {
                                        ComObjectType::Byte203
                                    }
                                } else {
                                    if b < 211 {
                                        ComObjectType::Byte204
                                    } else {
                                        ComObjectType::Byte205
                                    }
                                }
                            } else {
                                if b < 214 {
                                    if b < 213 {
                                        ComObjectType::Byte206
                                    } else {
                                        ComObjectType::Byte207
                                    }
                                } else {
                                    if b < 215 {
                                        ComObjectType::Byte208
                                    } else {
                                        ComObjectType::Byte209
                                    }
                                }
                            }
                        } else {
                            if b < 220 {
                                if b < 218 {
                                    if b < 217 {
                                        ComObjectType::Byte210
                                    } else {
                                        ComObjectType::Byte211
                                    }
                                } else {
                                    if b < 219 {
                                        ComObjectType::Byte212
                                    } else {
                                        ComObjectType::Byte213
                                    }
                                }
                            } else {
                                if b < 222 {
                                    if b < 221 {
                                        ComObjectType::Byte214
                                    } else {
                                        ComObjectType::Byte215
                                    }
                                } else {
                                    if b < 223 {
                                        ComObjectType::Byte216
                                    } else {
                                        ComObjectType::Byte217
                                    }
                                }
                            }
                        }
                    }
                } else {
                    if b < 240 {
                        if b < 232 {
                            if b < 228 {
                                if b < 226 {
                                    if b < 225 {
                                        ComObjectType::Byte218
                                    } else {
                                        ComObjectType::Byte219
                                    }
                                } else {
                                    if b < 227 {
                                        ComObjectType::Byte220
                                    } else {
                                        ComObjectType::Byte221
                                    }
                                }
                            } else {
                                if b < 230 {
                                    if b < 229 {
                                        ComObjectType::Byte222
                                    } else {
                                        ComObjectType::Byte223
                                    }
                                } else {
                                    if b < 231 {
                                        ComObjectType::Byte224
                                    } else {
                                        ComObjectType::Byte225
                                    }
                                }
                            }
                        } else {
                            if b < 236 {
                                if b < 234 {
                                    if b < 233 {
                                        ComObjectType::Byte226
                                    } else {
                                        ComObjectType::Byte227
                                    }
                                } else {
                                    if b < 235 {
                                        ComObjectType::Byte228
                                    } else {
                                        ComObjectType::Byte229
                                    }
                                }
                            } else {
                                if b < 238 {
                                    if b < 237 {
                                        ComObjectType::Byte230
                                    } else {
                                        ComObjectType::Byte231
                                    }
                                } else {
                                    if b < 239 {
                                        ComObjectType::Byte232
                                    } else {
                                        ComObjectType::Byte233
                                    }
                                }
                            }
                        }
                    } else {
                        if b < 248 {
                            if b < 244 {
                                if b < 242 {
                                    if b < 241 {
                                        ComObjectType::Byte234
                                    } else {
                                        ComObjectType::Byte235
                                    }
                                } else {
                                    if b < 243 {
                                        ComObjectType::Byte236
                                    } else {
                                        ComObjectType::Byte237
                                    }
                                }
                            } else {
                                if b < 246 {
                                    if b < 245 {
                                        ComObjectType::Byte238
                                    } else {
                                        ComObjectType::Byte239
                                    }
                                } else {
                                    if b < 247 {
                                        ComObjectType::Byte240
                                    } else {
                                        ComObjectType::Byte241
                                    }
                                }
                            }
                        } else {
                            if b < 252 {
                                if b < 250 {
                                    if b < 249 {
                                        ComObjectType::Byte242
                                    } else {
                                        ComObjectType::Byte243
                                    }
                                } else {
                                    if b < 251 {
                                        ComObjectType::Byte244
                                    } else {
                                        ComObjectType::Byte245
                                    }
                                }
                            } else {
                                if b < 254 {
                                    if b < 253 {
                                        ComObjectType::Byte246
                                    } else {
                                        ComObjectType::Byte247
                                    }
                                } else {
                                    if b < 255 {
                                        ComObjectType::Byte248
                                    } else {
                                        ComObjectType::Byte252
                                    }
                                }
                            }
                        }
                    }
                }
            }
        }
    }
}

/// The type to `u8` to type round trip is the identity: no two types
/// share an octet.
#[verifier::rlimit(100)]
#[verifier::spinoff_prover]
pub proof fn lemma_type_round_trip(t: ComObjectType)
    ensures
        ComObjectType::decode(t.code()) == t,
{
}

/// Size in octets of a value of the type with code `c`, and whether the
/// value fits the six data bits of a short APDU.
pub open spec fn type_size(c: u8) -> (usize, bool) {
    if c <= 5 {
        (1, true)
    } else if c <= 7 {
        (1, false)
    } else if c == 8 {
        (2, false)
    } else if c == 9 {
        (3, false)
    } else if c == 10 {
        (4, false)
    } else if c == 11 {
        (6, false)
    } else if c == 12 {
        (8, false)
    } else if c == 13 {
        (10, false)
    } else if c == 14 {
        (14, false)
    } else if c == 15 {
        (5, false)
    } else if c == 16 {
        (7, false)
    } else if c == 17 {
        (9, false)
    } else if c == 18 {
        (11, false)
    } else if c == 19 {
        (12, false)
    } else if c == 20 {
        (13, false)
    } else if c == 21 {
        (15, false)
    } else if c == 255 {
        (252, false)
    } else {
        ((c - 6) as usize, false)
    }
}

impl ComObjectType {
    /// Size in octets of a value of this type, and whether it is a compact
    /// type that fits the six data bits of a short APDU.
    pub fn size_in_bytes(&self) -> (r: (usize, bool))
        ensures
            r == type_size(self.code()),
    {
        let c = self.to_byte();
        if c <= 5 {
            (1, true)
        } else if c <= 7 {
            (1, false)
        } else if c == 8 {
            (2, false)
        } else if c == 9 {
            (3, false)
        } else if c == 10 {
            (4, false)
        } else if c == 11 {
            (6, false)
        } else if c == 12 {
            (8, false)
        } else if c == 13 {
            (10, false)
        } else if c == 14 {
            (14, false)
        } else if c == 15 {
            (5, false)
        } else if c == 16 {
            (7, false)
        } else if c == 17 {
            (9, false)
        } else if c == 18 {
            (11, false)
        } else if c == 19 {
            (12, false)
        } else if c == 20 {
            (13, false)
        } else if c == 21 {
            (15, false)
        } else if c == 255 {
            (252, false)
        } else {
            ((c - 6) as usize, false)
        }
    }
}

impl From<u8> for ComObjectType {
    fn from(b: u8) -> (r: ComObjectType) {
        ComObjectType::from_byte(b)
    }
}

impl FromSpecImpl<u8> for ComObjectType {
    open spec fn obeys_from_spec() -> bool {
        true
    }

    open spec fn from_spec(v: u8) -> ComObjectType {
        ComObjectType::decode(v)
    }
}

impl From<ComObjectType> for u8 {
    fn from(v: ComObjectType) -> (r: u8) {
        v.to_byte()
    }
}

impl FromSpecImpl<ComObjectType> for u8 {
    open spec fn obeys_from_spec() -> bool {
        true
    }

    open spec fn from_spec(v: ComObjectType) -> u8 {
        v.code()
    }
}

} // verus!
