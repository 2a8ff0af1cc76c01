"""Generate app/colormap_luts.rs: 256-entry RGB lookup tables sampled from
matplotlib's inferno, magma, RdBu and RdYlBu colormaps.

Usage: python3 extras/gen_colormap_luts.py > app/colormap_luts.rs
"""

import matplotlib


def table(name):
    cmap = matplotlib.colormaps[name]
    rows = []
    for i in range(256):
        r, g, b, _ = cmap(i / 255.0)
        rows.append("[%d, %d, %d]" % (round(r * 255), round(g * 255), round(b * 255)))
    return rows


def main():
    print("//! Colormap lookup tables (256 RGB entries each), sampled from matplotlib.")
    print()
    for const, name in [
        ("INFERNO_LUT", "inferno"),
        ("MAGMA_LUT", "magma"),
        ("RDBU_LUT", "RdBu"),
        ("RDYLBU_LUT", "RdYlBu"),
    ]:
        print("pub const %s: [[u8; 3]; 256] = [" % const)
        for row in table(name):
            print("    %s," % row)
        print("];")
        print()


if __name__ == "__main__":
    main()
