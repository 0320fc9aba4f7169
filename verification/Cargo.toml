[package]
name = "space_roach"
version = "0.1.0"
edition = "2021"
publish = false

[dependencies]
vecmath = "=1.0.0"
piston = "=1.0.0"
piston2d-graphics = "=0.45.0"
pistoncore-input = "=1.0.1"
piston2d-opengl_graphics = "=0.89.0"
pistoncore-sdl2_window = "=0.71.0"
piston2d-sprite = "=0.69.0"
tiled = "=0.16.0"
libc = "=0.2.191"
sndfile = "=0.1.1"
openal = "=0.2.2"
