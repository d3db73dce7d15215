use vstd::prelude::*;

verus! {

/// Reflected generator polynomial of CRC-16/Modbus.
pub const CRC16_POLY: u16 = 0xA001;

/// Register value before the first byte is fed in.
pub const CRC16_INIT: u16 = 0xFFFF;

/// One bit of the division: shift right, and fold the polynomial in when a
/// one fell off the low end.
pub open spec fn crc16_shift(reg: u16) -> u16 {
    if reg & 1 == 1 {
        (reg >> 1) ^ CRC16_POLY
    } else {
        reg >> 1
    }
}

/// Eight bits of the division.
pub open spec fn crc16_shift8(reg: u16) -> u16 {
    crc16_shift(
        crc16_shift(
            crc16_shift(
                crc16_shift(crc16_shift(crc16_shift(crc16_shift(crc16_shift(reg))))),
            ),
        ),
    )
}

/// The register after one more byte: the byte is folded into the low half
/// and divided out bit by bit.
pub open spec fn crc16_update(reg: u16, byte: u8) -> u16 {
    crc16_shift8(reg ^ (byte as u16))
}

/// The register after a run of bytes, starting from `reg`.
pub open spec fn crc16_from(reg: u16, data: Seq<u8>) -> u16
    decreases data.len(),
{
    if data.len() == 0 {
        reg
    } else {
        crc16_update(crc16_from(reg, data.drop_last()), data.last())
    }
}

/// CRC-16/Modbus of a byte string: initial value 0xFFFF, bytes fed in order,
/// no final inversion. The empty string has checksum 0xFFFF.
pub open spec fn crc16(data: Seq<u8>) -> u16 {
    crc16_from(CRC16_INIT, data)
}

/// Low byte of a checksum, the one that goes on the wire first.
pub open spec fn crc_lo(crc: u16) -> u8 {
    (crc & 0xFF) as u8
}

/// High byte of a checksum, the one that goes on the wire second.
pub open spec fn crc_hi(crc: u16) -> u8 {
    (crc >> 8) as u8
}

/// The 16-bit value that two wire bytes stand for, low byte first.
pub open spec fn le16(lo: u8, hi: u8) -> u16 {
    (lo as u16) | ((hi as u16) << 8)
}

/// A byte string followed by its own checksum, low byte first.
pub open spec fn with_crc(body: Seq<u8>) -> Seq<u8> {
    body.push(crc_lo(crc16(body))).push(crc_hi(crc16(body)))
}

/// Whether the last two bytes of `frame` are the checksum of what precedes
/// them.
pub open spec fn crc_matches(frame: Seq<u8>) -> bool {
    &&& frame.len() >= 2
    &&& le16(frame[frame.len() - 2], frame[frame.len() - 1]) == crc16(
        frame.subrange(0, frame.len() - 2),
    )
}

/// `frame` with one bit of one byte inverted.
pub open spec fn flip_bit(frame: Seq<u8>, index: int, bit: u8) -> Seq<u8> {
    frame.update(index, frame[index] ^ (1u8 << bit))
}

/// Remainders of all 256 single-byte registers.
pub const CRC16_TABLE: [u16; 256] = [
    0x0000, 0xC0C1, 0xC181, 0x0140, 0xC301, 0x03C0, 0x0280, 0xC241,
    0xC601, 0x06C0, 0x0780, 0xC741, 0x0500, 0xC5C1, 0xC481, 0x0440,
    0xCC01, 0x0CC0, 0x0D80, 0xCD41, 0x0F00, 0xCFC1, 0xCE81, 0x0E40,
    0x0A00, 0xCAC1, 0xCB81, 0x0B40, 0xC901, 0x09C0, 0x0880, 0xC841,
    0xD801, 0x18C0, 0x1980, 0xD941, 0x1B00, 0xDBC1, 0xDA81, 0x1A40,
    0x1E00, 0xDEC1, 0xDF81, 0x1F40, 0xDD01, 0x1DC0, 0x1C80, 0xDC41,
    0x1400, 0xD4C1, 0xD581, 0x1540, 0xD701, 0x17C0, 0x1680, 0xD641,
    0xD201, 0x12C0, 0x1380, 0xD341, 0x1100, 0xD1C1, 0xD081, 0x1040,
    0xF001, 0x30C0, 0x3180, 0xF141, 0x3300, 0xF3C1, 0xF281, 0x3240,
    0x3600, 0xF6C1, 0xF781, 0x3740, 0xF501, 0x35C0, 0x3480, 0xF441,
    0x3C00, 0xFCC1, 0xFD81, 0x3D40, 0xFF01, 0x3FC0, 0x3E80, 0xFE41,
    0xFA01, 0x3AC0, 0x3B80, 0xFB41, 0x3900, 0xF9C1, 0xF881, 0x3840,
    0x2800, 0xE8C1, 0xE981, 0x2940, 0xEB01, 0x2BC0, 0x2A80, 0xEA41,
    0xEE01, 0x2EC0, 0x2F80, 0xEF41, 0x2D00, 0xEDC1, 0xEC81, 0x2C40,
    0xE401, 0x24C0, 0x2580, 0xE541, 0x2700, 0xE7C1, 0xE681, 0x2640,
    0x2200, 0xE2C1, 0xE381, 0x2340, 0xE101, 0x21C0, 0x2080, 0xE041,
    0xA001, 0x60C0, 0x6180, 0xA141, 0x6300, 0xA3C1, 0xA281, 0x6240,
    0x6600, 0xA6C1, 0xA781, 0x6740, 0xA501, 0x65C0, 0x6480, 0xA441,
    0x6C00, 0xACC1, 0xAD81, 0x6D40, 0xAF01, 0x6FC0, 0x6E80, 0xAE41,
    0xAA01, 0x6AC0, 0x6B80, 0xAB41, 0x6900, 0xA9C1, 0xA881, 0x6840,
    0x7800, 0xB8C1, 0xB981, 0x7940, 0xBB01, 0x7BC0, 0x7A80, 0xBA41,
    0xBE01, 0x7EC0, 0x7F80, 0xBF41, 0x7D00, 0xBDC1, 0xBC81, 0x7C40,
    0xB401, 0x74C0, 0x7580, 0xB541, 0x7700, 0xB7C1, 0xB681, 0x7640,
    0x7200, 0xB2C1, 0xB381, 0x7340, 0xB101, 0x71C0, 0x7080, 0xB041,
    0x5000, 0x90C1, 0x9181, 0x5140, 0x9301, 0x53C0, 0x5280, 0x9241,
    0x9601, 0x56C0, 0x5780, 0x9741, 0x5500, 0x95C1, 0x9481, 0x5440,
    0x9C01, 0x5CC0, 0x5D80, 0x9D41, 0x5F00, 0x9FC1, 0x9E81, 0x5E40,
    0x5A00, 0x9AC1, 0x9B81, 0x5B40, 0x9901, 0x59C0, 0x5880, 0x9841,
    0x8801, 0x48C0, 0x4980, 0x8941, 0x4B00, 0x8BC1, 0x8A81, 0x4A40,
    0x4E00, 0x8EC1, 0x8F81, 0x4F40, 0x8D01, 0x4DC0, 0x4C80, 0x8C41,
    0x4400, 0x84C1, 0x8581, 0x4540, 0x8701, 0x47C0, 0x4680, 0x8641,
    0x8201, 0x42C0, 0x4380, 0x8341, 0x4100, 0x81C1, 0x8081, 0x4040,
];

/// The table written out as a function, so that the bit-level solver can
/// hold it against the division it abbreviates.
spec fn table_value(i: u8) -> u16 {
    if i < 128 {
        if i < 64 {
            if i < 32 {
                if i < 16 {
                    if i < 8 {
                        if i < 4 {
                            if i == 0 { 0x0000 } else if i == 1 { 0xC0C1 } else if i == 2 { 0xC181 } else { 0x0140 }
                        } else {
                            if i == 4 { 0xC301 } else if i == 5 { 0x03C0 } else if i == 6 { 0x0280 } else { 0xC241 }
                        }
                    } else {
                        if i < 12 {
                            if i == 8 { 0xC601 } else if i == 9 { 0x06C0 } else if i == 10 { 0x0780 } else { 0xC741 }
                        } else {
                            if i == 12 { 0x0500 } else if i == 13 { 0xC5C1 } else if i == 14 { 0xC481 } else { 0x0440 }
                        }
                    }
                } else {
                    if i < 24 {
                        if i < 20 {
                            if i == 16 { 0xCC01 } else if i == 17 { 0x0CC0 } else if i == 18 { 0x0D80 } else { 0xCD41 }
                        } else {
                            if i == 20 { 0x0F00 } else if i == 21 { 0xCFC1 } else if i == 22 { 0xCE81 } else { 0x0E40 }
                        }
                    } else {
                        if i < 28 {
                            if i == 24 { 0x0A00 } else if i == 25 { 0xCAC1 } else if i == 26 { 0xCB81 } else { 0x0B40 }
                        } else {
                            if i == 28 { 0xC901 } else if i == 29 { 0x09C0 } else if i == 30 { 0x0880 } else { 0xC841 }
                        }
                    }
                }
            } else {
                if i < 48 {
                    if i < 40 {
                        if i < 36 {
                            if i == 32 { 0xD801 } else if i == 33 { 0x18C0 } else if i == 34 { 0x1980 } else { 0xD941 }
                        } else {
                            if i == 36 { 0x1B00 } else if i == 37 { 0xDBC1 } else if i == 38 { 0xDA81 } else { 0x1A40 }
                        }
                    } else {
                        if i < 44 {
                            if i == 40 { 0x1E00 } else if i == 41 { 0xDEC1 } else if i == 42 { 0xDF81 } else { 0x1F40 }
                        } else {
                            if i == 44 { 0xDD01 } else if i == 45 { 0x1DC0 } else if i == 46 { 0x1C80 } else { 0xDC41 }
                        }
                    }
                } else {
                    if i < 56 {
                        if i < 52 {
                            if i == 48 { 0x1400 } else if i == 49 { 0xD4C1 } else if i == 50 { 0xD581 } else { 0x1540 }
                        } else {
                            if i == 52 { 0xD701 } else if i == 53 { 0x17C0 } else if i == 54 { 0x1680 } else { 0xD641 }
                        }
                    } else {
                        if i < 60 {
                            if i == 56 { 0xD201 } else if i == 57 { 0x12C0 } else if i == 58 { 0x1380 } else { 0xD341 }
                        } else {
                            if i == 60 { 0x1100 } else if i == 61 { 0xD1C1 } else if i == 62 { 0xD081 } else { 0x1040 }
                        }
                    }
                }
            }
        } else {
            if i < 96 {
                if i < 80 {
                    if i < 72 {
                        if i < 68 {
                            if i == 64 { 0xF001 } else if i == 65 { 0x30C0 } else if i == 66 { 0x3180 } else { 0xF141 }
                        } else {
                            if i == 68 { 0x3300 } else if i == 69 { 0xF3C1 } else if i == 70 { 0xF281 } else { 0x3240 }
                        }
                    } else {
                        if i < 76 {
                            if i == 72 { 0x3600 } else if i == 73 { 0xF6C1 } else if i == 74 { 0xF781 } else { 0x3740 }
                        } else {
                            if i == 76 { 0xF501 } else if i == 77 { 0x35C0 } else if i == 78 { 0x3480 } else { 0xF441 }
                        }
                    }
                } else {
                    if i < 88 {
                        if i < 84 {
                            if i == 80 { 0x3C00 } else if i == 81 { 0xFCC1 } else if i == 82 { 0xFD81 } else { 0x3D40 }
                        } else {
                            if i == 84 { 0xFF01 } else if i == 85 { 0x3FC0 } else if i == 86 { 0x3E80 } else { 0xFE41 }
                        }
                    } else {
                        if i < 92 {
                            if i == 88 { 0xFA01 } else if i == 89 { 0x3AC0 } else if i == 90 { 0x3B80 } else { 0xFB41 }
                        } else {
                            if i == 92 { 0x3900 } else if i == 93 { 0xF9C1 } else if i == 94 { 0xF881 } else { 0x3840 }
                        }
                    }
                }
            } else {
                if i < 112 {
                    if i < 104 {
                        if i < 100 {
                            if i == 96 { 0x2800 } else if i == 97 { 0xE8C1 } else if i == 98 { 0xE981 } else { 0x2940 }
                        } else {
                            if i == 100 { 0xEB01 } else if i == 101 { 0x2BC0 } else if i == 102 { 0x2A80 } else { 0xEA41 }
                        }
                    } else {
                        if i < 108 {
                            if i == 104 { 0xEE01 } else if i == 105 { 0x2EC0 } else if i == 106 { 0x2F80 } else { 0xEF41 }
                        } else {
                            if i == 108 { 0x2D00 } else if i == 109 { 0xEDC1 } else if i == 110 { 0xEC81 } else { 0x2C40 }
                        }
                    }
                } else {
                    if i < 120 {
                        if i < 116 {
                            if i == 112 { 0xE401 } else if i == 113 { 0x24C0 } else if i == 114 { 0x2580 } else { 0xE541 }
                        } else {
                            if i == 116 { 0x2700 } else if i == 117 { 0xE7C1 } else if i == 118 { 0xE681 } else { 0x2640 }
                        }
                    } else {
                        if i < 124 {
                            if i == 120 { 0x2200 } else if i == 121 { 0xE2C1 } else if i == 122 { 0xE381 } else { 0x2340 }
                        } else {
                            if i == 124 { 0xE101 } else if i == 125 { 0x21C0 } else if i == 126 { 0x2080 } else { 0xE041 }
                        }
                    }
                }
            }
        }
    } else {
        if i < 192 {
            if i < 160 {
                if i < 144 {
                    if i < 136 {
                        if i < 132 {
                            if i == 128 { 0xA001 } else if i == 129 { 0x60C0 } else if i == 130 { 0x6180 } else { 0xA141 }
                        } else {
                            if i == 132 { 0x6300 } else if i == 133 { 0xA3C1 } else if i == 134 { 0xA281 } else { 0x6240 }
                        }
                    } else {
                        if i < 140 {
                            if i == 136 { 0x6600 } else if i == 137 { 0xA6C1 } else if i == 138 { 0xA781 } else { 0x6740 }
                        } else {
                            if i == 140 { 0xA501 } else if i == 141 { 0x65C0 } else if i == 142 { 0x6480 } else { 0xA441 }
                        }
                    }
                } else {
                    if i < 152 {
                        if i < 148 {
                            if i == 144 { 0x6C00 } else if i == 145 { 0xACC1 } else if i == 146 { 0xAD81 } else { 0x6D40 }
                        } else {
                            if i == 148 { 0xAF01 } else if i == 149 { 0x6FC0 } else if i == 150 { 0x6E80 } else { 0xAE41 }
                        }
                    } else {
                        if i < 156 {
                            if i == 152 { 0xAA01 } else if i == 153 { 0x6AC0 } else if i == 154 { 0x6B80 } else { 0xAB41 }
                        } else {
                            if i == 156 { 0x6900 } else if i == 157 { 0xA9C1 } else if i == 158 { 0xA881 } else { 0x6840 }
                        }
                    }
                }
            } else {
                if i < 176 {
                    if i < 168 {
                        if i < 164 {
                            if i == 160 { 0x7800 } else if i == 161 { 0xB8C1 } else if i == 162 { 0xB981 } else { 0x7940 }
                        } else {
                            if i == 164 { 0xBB01 } else if i == 165 { 0x7BC0 } else if i == 166 { 0x7A80 } else { 0xBA41 }
                        }
                    } else {
                        if i < 172 {
                            if i == 168 { 0xBE01 } else if i == 169 { 0x7EC0 } else if i == 170 { 0x7F80 } else { 0xBF41 }
                        } else {
                            if i == 172 { 0x7D00 } else if i == 173 { 0xBDC1 } else if i == 174 { 0xBC81 } else { 0x7C40 }
                        }
                    }
                } else {
                    if i < 184 {
                        if i < 180 {
                            if i == 176 { 0xB401 } else if i == 177 { 0x74C0 } else if i == 178 { 0x7580 } else { 0xB541 }
                        } else {
                            if i == 180 { 0x7700 } else if i == 181 { 0xB7C1 } else if i == 182 { 0xB681 } else { 0x7640 }
                        }
                    } else {
                        if i < 188 {
                            if i == 184 { 0x7200 } else if i == 185 { 0xB2C1 } else if i == 186 { 0xB381 } else { 0x7340 }
                        } else {
                            if i == 188 { 0xB101 } else if i == 189 { 0x71C0 } else if i == 190 { 0x7080 } else { 0xB041 }
                        }
                    }
                }
            }
        } else {
            if i < 224 {
                if i < 208 {
                    if i < 200 {
                        if i < 196 {
                            if i == 192 { 0x5000 } else if i == 193 { 0x90C1 } else if i == 194 { 0x9181 } else { 0x5140 }
                        } else {
                            if i == 196 { 0x9301 } else if i == 197 { 0x53C0 } else if i == 198 { 0x5280 } else { 0x9241 }
                        }
                    } else {
                        if i < 204 {
                            if i == 200 { 0x9601 } else if i == 201 { 0x56C0 } else if i == 202 { 0x5780 } else { 0x9741 }
                        } else {
                            if i == 204 { 0x5500 } else if i == 205 { 0x95C1 } else if i == 206 { 0x9481 } else { 0x5440 }
                        }
                    }
                } else {
                    if i < 216 {
                        if i < 212 {
                            if i == 208 { 0x9C01 } else if i == 209 { 0x5CC0 } else if i == 210 { 0x5D80 } else { 0x9D41 }
                        } else {
                            if i == 212 { 0x5F00 } else if i == 213 { 0x9FC1 } else if i == 214 { 0x9E81 } else { 0x5E40 }
                        }
                    } else {
                        if i < 220 {
                            if i == 216 { 0x5A00 } else if i == 217 { 0x9AC1 } else if i == 218 { 0x9B81 } else { 0x5B40 }
                        } else {
                            if i == 220 { 0x9901 } else if i == 221 { 0x59C0 } else if i == 222 { 0x5880 } else { 0x9841 }
                        }
                    }
                }
            } else {
                if i < 240 {
                    if i < 232 {
                        if i < 228 {
                            if i == 224 { 0x8801 } else if i == 225 { 0x48C0 } else if i == 226 { 0x4980 } else { 0x8941 }
                        } else {
                            if i == 228 { 0x4B00 } else if i == 229 { 0x8BC1 } else if i == 230 { 0x8A81 } else { 0x4A40 }
                        }
                    } else {
                        if i < 236 {
                            if i == 232 { 0x4E00 } else if i == 233 { 0x8EC1 } else if i == 234 { 0x8F81 } else { 0x4F40 }
                        } else {
                            if i == 236 { 0x8D01 } else if i == 237 { 0x4DC0 } else if i == 238 { 0x4C80 } else { 0x8C41 }
                        }
                    }
                } else {
                    if i < 248 {
                        if i < 244 {
                            if i == 240 { 0x4400 } else if i == 241 { 0x84C1 } else if i == 242 { 0x8581 } else { 0x4540 }
                        } else {
                            if i == 244 { 0x8701 } else if i == 245 { 0x47C0 } else if i == 246 { 0x4680 } else { 0x8641 }
                        }
                    } else {
                        if i < 252 {
                            if i == 248 { 0x8201 } else if i == 249 { 0x42C0 } else if i == 250 { 0x4380 } else { 0x8341 }
                        } else {
                            if i == 252 { 0x4100 } else if i == 253 { 0x81C1 } else if i == 254 { 0x8081 } else { 0x4040 }
                        }
                    }
                }
            }
        }
    }
}

proof fn lemma_table_value(i: u8)
    ensures
        table_value(i) == crc16_shift8(i as u16),
{
    assert(table_value(i) == crc16_shift8(i as u16)) by (bit_vector);
}

/// Every table entry is the remainder of its own index.
pub proof fn lemma_table_entry(i: int)
    requires
        0 <= i < 256,
    ensures
        CRC16_TABLE[i] == crc16_shift8(i as u16),
{
    lemma_table_value(i as u8);
    assert(CRC16_TABLE[i] == table_value(i as u8));
}

/// Dividing a whole register by eight bits is the same as dividing its low
/// byte alone and adding the untouched high byte back in. This is what
/// makes one table lookup per byte enough.
pub proof fn lemma_update_by_table(reg: u16, byte: u8)
    ensures
        ((reg ^ (byte as u16)) & 0xFF) < 256,
        crc16_update(reg, byte) == (reg >> 8) ^ CRC16_TABLE[((reg ^ (byte as u16)) & 0xFF) as int],
{
    let x: u16 = reg ^ (byte as u16);
    let low: u16 = x & 0xFF;
    assert(low < 256) by (bit_vector)
        requires
            low == x & 0xFF,
    ;
    assert(crc16_shift8(x) == (reg >> 8) ^ crc16_shift8(low)) by (bit_vector)
        requires
            x == reg ^ (byte as u16),
            low == x & 0xFF,
    ;
    lemma_table_entry(low as int);
}

/// Two wire bytes made from a checksum read back as that checksum.
pub proof fn lemma_le16_of_parts(crc: u16)
    ensures
        le16(crc_lo(crc), crc_hi(crc)) == crc,
{
    assert(((crc & 0xFF) as u8 as u16) | (((crc >> 8) as u8 as u16) << 8) == crc) by (bit_vector);
}

/// Different pairs of wire bytes stand for different values.
pub proof fn lemma_le16_injective(lo1: u8, hi1: u8, lo2: u8, hi2: u8)
    requires
        le16(lo1, hi1) == le16(lo2, hi2),
    ensures
        lo1 == lo2,
        hi1 == hi2,
{
    assert(((lo1 as u16) | ((hi1 as u16) << 8)) == ((lo2 as u16) | ((hi2 as u16) << 8)) ==> lo1
        == lo2 && hi1 == hi2) by (bit_vector);
}

/// The checksum of a string is a function of the string alone: computing it
/// again gives the same value, and a string with its checksum appended
/// passes the check.
pub proof fn lemma_appended_crc_matches(body: Seq<u8>)
    ensures
        with_crc(body).len() == body.len() + 2,
        with_crc(body).subrange(0, body.len() as int) == body,
        crc_matches(with_crc(body)),
{
    let frame = with_crc(body);
    assert(frame.subrange(0, frame.len() - 2) == body);
    lemma_le16_of_parts(crc16(body));
}

/// The division step loses nothing: different registers stay different.
proof fn lemma_update_injective(reg1: u16, byte1: u8, reg2: u16, byte2: u8)
    requires
        reg1 != reg2 || byte1 != byte2,
        reg1 == reg2 || byte1 == byte2,
    ensures
        crc16_update(reg1, byte1) != crc16_update(reg2, byte2),
{
    assert((reg1 != reg2 || byte1 != byte2) && (reg1 == reg2 || byte1 == byte2) ==> crc16_shift8(
        reg1 ^ (byte1 as u16),
    ) != crc16_shift8(reg2 ^ (byte2 as u16))) by (bit_vector);
}

/// Two strings whose prefixes leave different registers, and which agree
/// from there on, leave different registers at the end.
proof fn lemma_difference_persists(a: Seq<u8>, b: Seq<u8>, from: int)
    requires
        a.len() == b.len(),
        0 <= from <= a.len(),
        crc16(a.take(from)) != crc16(b.take(from)),
        forall|k: int| from <= k < a.len() ==> a[k] == b[k],
    ensures
        crc16(a) != crc16(b),
    decreases a.len() - from,
{
    if from == a.len() {
        assert(a.take(from) == a);
        assert(b.take(from) == b);
    } else {
        assert(a.take(from + 1).drop_last() == a.take(from));
        assert(b.take(from + 1).drop_last() == b.take(from));
        lemma_update_injective(crc16(a.take(from)), a[from], crc16(b.take(from)), b[from]);
        lemma_difference_persists(a, b, from + 1);
    }
}

/// Two strings of one length that differ in exactly one byte have different
/// checksums.
pub proof fn lemma_one_byte_changes_crc(a: Seq<u8>, b: Seq<u8>, index: int)
    requires
        a.len() == b.len(),
        0 <= index < a.len(),
        a[index] != b[index],
        forall|k: int| 0 <= k < a.len() && k != index ==> a[k] == b[k],
    ensures
        crc16(a) != crc16(b),
{
    assert(a.take(index) == b.take(index));
    assert(a.take(index + 1).drop_last() == a.take(index));
    assert(b.take(index + 1).drop_last() == b.take(index));
    lemma_update_injective(crc16(a.take(index)), a[index], crc16(b.take(index)), b[index]);
    lemma_difference_persists(a, b, index + 1);
}

/// A frame that passes the check fails it once any single bit of it, in the
/// body or in the checksum, is inverted.
pub proof fn lemma_bit_flip_detected(frame: Seq<u8>, index: int, bit: u8)
    requires
        crc_matches(frame),
        0 <= index < frame.len(),
        bit < 8,
    ensures
        !crc_matches(flip_bit(frame, index, bit)),
{
    let flipped = flip_bit(frame, index, bit);
    let n = frame.len() as int;
    let old_byte = frame[index];
    assert(old_byte ^ (1u8 << bit) != old_byte) by (bit_vector)
        requires
            bit < 8,
    ;
    let body = frame.subrange(0, n - 2);
    let flipped_body = flipped.subrange(0, n - 2);
    if index < n - 2 {
        lemma_one_byte_changes_crc(body, flipped_body, index);
    } else {
        assert(flipped_body == body);
        if crc_matches(flipped) {
            lemma_le16_injective(frame[n - 2], frame[n - 1], flipped[n - 2], flipped[n - 1]);
        }
    }
}


/// Computes the CRC-16/Modbus checksum of `data` with one table lookup per
/// byte.
pub fn calc_crc16(data: &[u8]) -> (crc: u16)
    ensures
        crc == crc16(data@),
{
    let mut crc: u16 = CRC16_INIT;
    let mut i: usize = 0;
    while i < data.len()
        invariant
            i <= data.len(),
            crc == crc16_from(CRC16_INIT, data@.take(i as int)),
        decreases data.len() - i,
    {
        let byte = data[i];
        let index = ((crc ^ byte as u16) & 0x00FF) as usize;
        proof {
            lemma_update_by_table(crc, byte);
            assert(data@.take(i + 1).drop_last() == data@.take(i as int));
            assert(data@.take(i + 1).last() == byte);
        }
        crc = (crc >> 8) ^ CRC16_TABLE[index];
        i += 1;
    }
    proof {
        assert(data@.take(data.len() as int) == data@);
    }
    crc
}

} // verus!
